use vstd::prelude::*;

verus! {

/// The identity fields that an account must have set in order to propose and
/// to vote: none in particular, any identity will do.
pub const REQUIRED_FIELDS: u64 = 0;

/// A trait to allow the voting system to verify that account setup identity.
pub trait IdentityVerifier<AccountId> {
    /// Whether `who` has an identity in which the given fields are set.
    fn has_identity(who: &AccountId, fields: u64) -> bool;
}

/// Asks `V` whether `who` may propose and vote: the answer is what `V` gives
/// for `who` and the required fields, and what the operations take.
pub fn has_identity<AccountId, V: IdentityVerifier<AccountId>>(who: &AccountId) -> (identified: bool)
    ensures
        call_ensures(V::has_identity, (who, REQUIRED_FIELDS), identified),
{
    V::has_identity(who, REQUIRED_FIELDS)
}

} // verus!
