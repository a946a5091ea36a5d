use vstd::prelude::*;
use crate::pallet::Pallet;
use crate::types::{Balance, Error};

verus! {

/// The funds that `votes` votes cost: their square, as a mathematical integer.
pub open spec fn price(votes: int) -> int {
    votes * votes
}

impl Pallet {
    /// Helper function to calculate price in tokens for given amount of
    /// votes. The price does not depend on the side that the votes take.
    ///
    /// Fails with `Overflow` exactly when the square does not fit in a
    /// balance.
    pub fn calculate_price(amount: u128) -> (res: Result<Balance, Error>)
        ensures
            price(amount as int) <= u128::MAX ==> res == Ok::<Balance, Error>(
                price(amount as int) as Balance,
            ),
            price(amount as int) > u128::MAX ==> res == Err::<Balance, Error>(Error::Overflow),
    {
        match amount.checked_mul(amount) {
            Some(cost) => Ok(cost),
            None => Err(Error::Overflow),
        }
    }
}

} // verus!
