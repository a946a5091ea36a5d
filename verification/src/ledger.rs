use vstd::prelude::*;
use std::collections::BTreeMap;
use std::collections::BTreeSet;
use crate::types::{AccountId, Balance, Error, ProposalIndex};

verus! {

/// What a ledger holds: the funds that are locked, and the votes whose funds
/// were handed back.
#[verifier::ext_equal]
pub struct LedgerState {
    /// For each proposal and account the funds that are locked for its vote.
    pub locked: Map<(ProposalIndex, AccountId), Balance>,
    /// The proposals and accounts whose vote had its funds handed back.
    pub released: Set<(ProposalIndex, AccountId)>,
}

impl LedgerState {
    /// The ledger before any vote.
    pub open spec fn empty() -> LedgerState {
        LedgerState { locked: Map::empty(), released: Set::empty() }
    }

    /// No vote has its funds both locked and handed back.
    pub open spec fn wf(self) -> bool {
        forall|key: (ProposalIndex, AccountId)| #[trigger]
            self.locked.contains_key(key) ==> !self.released.contains(key)
    }

    /// Whether the account has voted on the proposal, be its funds still
    /// locked or handed back.
    pub open spec fn has_voted(self, proposal_index: ProposalIndex, account: AccountId) -> bool {
        self.locked.contains_key((proposal_index, account)) || self.released.contains(
            (proposal_index, account),
        )
    }

    /// What is locked for the vote of the account on the proposal, if
    /// anything.
    pub open spec fn locked_amount(
        self,
        proposal_index: ProposalIndex,
        account: AccountId,
    ) -> Option<Balance> {
        if self.locked.contains_key((proposal_index, account)) {
            Some(self.locked[(proposal_index, account)])
        } else {
            None
        }
    }

    /// The ledger with `amount` locked for the vote of the account.
    pub open spec fn with_lock(
        self,
        proposal_index: ProposalIndex,
        account: AccountId,
        amount: Balance,
    ) -> LedgerState {
        LedgerState { locked: self.locked.insert((proposal_index, account), amount), ..self }
    }

    /// The ledger after the funds for the vote of the account were handed
    /// back: nothing is locked for it any more, and the vote is remembered.
    pub open spec fn with_release(
        self,
        proposal_index: ProposalIndex,
        account: AccountId,
    ) -> LedgerState {
        LedgerState {
            locked: self.locked.remove((proposal_index, account)),
            released: self.released.insert((proposal_index, account)),
        }
    }
}

/// The votes by proposal and account, with the funds that are locked for
/// them. An account has at most one vote on a proposal, for all time: its
/// funds are locked from the vote until they are handed back, and after that
/// the ledger still knows of the vote.
pub struct VoteLedger {
    locked: BTreeMap<(ProposalIndex, AccountId), Balance>,
    released: BTreeSet<(ProposalIndex, AccountId)>,
}

impl View for VoteLedger {
    type V = LedgerState;

    closed spec fn view(&self) -> LedgerState {
        LedgerState { locked: self.locked@, released: self.released@ }
    }
}

impl VoteLedger {
    /// What the operations rely on and keep.
    pub open spec fn wf(&self) -> bool {
        self@.wf()
    }

    /// A ledger without votes.
    pub fn new() -> (ledger: Self)
        ensures
            ledger.wf(),
            ledger@ == LedgerState::empty(),
    {
        VoteLedger { locked: BTreeMap::new(), released: BTreeSet::new() }
    }

    /// Whether `account` has voted on the proposal. That stays so when the
    /// funds for the vote are handed back.
    pub fn has_voted(&self, proposal_index: ProposalIndex, account: AccountId) -> (voted: bool)
        ensures
            voted == self@.has_voted(proposal_index, account),
    {
        broadcast use vstd::laws_cmp::group_laws_cmp;
        self.locked.contains_key(&(proposal_index, account)) || self.released.contains(
            &(proposal_index, account),
        )
    }

    /// The funds of `account` that are locked for its vote on the proposal.
    pub fn locked_amount(&self, proposal_index: ProposalIndex, account: AccountId) -> (amount:
        Option<Balance>)
        ensures
            amount == self@.locked_amount(proposal_index, account),
    {
        broadcast use vstd::laws_cmp::group_laws_cmp;
        match self.locked.get(&(proposal_index, account)) {
            Some(amount) => Some(*amount),
            None => None,
        }
    }

    /// Records that `amount` is locked for the vote of `account` on the
    /// proposal. An account votes once on a proposal, on whichever side, and
    /// not again after its funds were handed back.
    pub fn lock(&mut self, proposal_index: ProposalIndex, account: AccountId, amount: Balance) -> (res:
        Result<(), Error>)
        requires
            old(self).wf(),
        ensures
            final(self).wf(),
            old(self)@.has_voted(proposal_index, account) ==> res == Err::<(), Error>(
                Error::AlreadyVoted,
            ) && final(self)@ == old(self)@,
            !old(self)@.has_voted(proposal_index, account) ==> res == Ok::<(), Error>(())
                && final(self)@ == old(self)@.with_lock(proposal_index, account, amount),
    {
        if self.has_voted(proposal_index, account) {
            Err(Error::AlreadyVoted)
        } else {
            broadcast use vstd::laws_cmp::group_laws_cmp;
            self.locked.insert((proposal_index, account), amount);
            Ok(())
        }
    }

    /// Removes what is locked for the vote of `account` on the proposal and
    /// returns the amount. The vote itself is not forgotten.
    pub fn take(&mut self, proposal_index: ProposalIndex, account: AccountId) -> (res: Result<
        Balance,
        Error,
    >)
        requires
            old(self).wf(),
        ensures
            final(self).wf(),
            res == (match old(self)@.locked_amount(proposal_index, account) {
                Some(amount) => Ok::<Balance, Error>(amount),
                None => Err::<Balance, Error>(Error::NotVoted),
            }),
            res is Ok ==> final(self)@ == old(self)@.with_release(proposal_index, account),
            res is Err ==> final(self)@ == old(self)@,
    {
        broadcast use vstd::laws_cmp::group_laws_cmp;
        match self.locked.remove(&(proposal_index, account)) {
            Some(amount) => {
                self.released.insert((proposal_index, account));
                Ok(amount)
            },
            None => Err(Error::NotVoted),
        }
    }
}

} // verus!
