use vstd::prelude::*;
use frame_support::BoundedVec;
use frame_support::traits::ConstU32;
use crate::proposal::Proposal;
use crate::types::{AccountId, BlockNumber, ProposalIndex, Vote};

verus! {

/// The proposals that have been made, in the order in which they were made.
///
/// A proposal's index is its position: the first proposal has index 0, each
/// later one the next index, and no proposal ever leaves.
pub struct ProposalRegistry {
    proposals: Vec<Proposal<AccountId, BlockNumber>>,
}

impl View for ProposalRegistry {
    type V = Seq<Proposal<AccountId, BlockNumber>>;

    closed spec fn view(&self) -> Self::V {
        self.proposals@
    }
}

impl ProposalRegistry {
    /// Every proposal has an index.
    pub open spec fn wf(&self) -> bool {
        self@.len() <= u32::MAX
    }

    /// A registry without proposals.
    pub fn new() -> (registry: Self)
        ensures
            registry.wf(),
            registry@ == Seq::<Proposal<AccountId, BlockNumber>>::empty(),
    {
        ProposalRegistry { proposals: Vec::new() }
    }

    /// Number of proposals that have been made, which is the index that the
    /// next proposal gets.
    pub fn count(&self) -> (count: ProposalIndex)
        requires
            self.wf(),
        ensures
            count == self@.len(),
    {
        self.proposals.len() as u32
    }

    /// Stores a proposal of `creator` without votes, on which voting ends
    /// `voting_window` blocks after `now`, and returns its index.
    pub fn create(
        &mut self,
        creator: AccountId,
        descriptor: BoundedVec<u8, ConstU32<32>>,
        now: BlockNumber,
        voting_window: BlockNumber,
    ) -> (index: ProposalIndex)
        requires
            old(self).wf(),
            old(self)@.len() < u32::MAX,
            now + voting_window <= u64::MAX,
        ensures
            final(self).wf(),
            index == old(self)@.len(),
            final(self)@ == old(self)@.push(
                (Proposal {
                    aye: 0,
                    nay: 0,
                    hash: descriptor,
                    proposer: creator,
                    end: (now + voting_window) as u64,
                }),
            ),
    {
        let index = self.proposals.len() as u32;
        self.proposals.push(Proposal::new(creator, descriptor, now, voting_window));
        index
    }

    /// The proposal at `index`, if one has been made.
    pub fn get(&self, index: ProposalIndex) -> (found: Option<&Proposal<AccountId, BlockNumber>>)
        ensures
            index < self@.len() ==> found == Some(&self@[index as int]),
            index >= self@.len() ==> found.is_none(),
    {
        if (index as usize) < self.proposals.len() {
            Some(&self.proposals[index as usize])
        } else {
            None
        }
    }

    /// Adds `amount` to the tally of the proposal at `index` on the side of
    /// `vote`. Whether voting is still open is for the caller to decide.
    pub fn record_vote(&mut self, index: ProposalIndex, vote: Vote, amount: u128)
        requires
            old(self).wf(),
            index < old(self)@.len(),
            old(self)@[index as int].tally(vote) + amount <= u128::MAX,
        ensures
            final(self).wf(),
            final(self)@ == old(self)@.update(
                index as int,
                old(self)@[index as int].with_votes(vote, amount),
            ),
    {
        self.proposals[index as usize].record_vote(vote, amount);
    }

    /// Whether the proposal at `index` exists and accepts votes at `now`.
    pub fn is_open(&self, index: ProposalIndex, now: BlockNumber) -> (open: bool)
        ensures
            open == (index < self@.len() && self@[index as int].spec_is_open(now)),
    {
        match self.get(index) {
            Some(p) => p.is_open(now),
            None => false,
        }
    }

    /// Whether the proposal at `index` exists and lets locked funds go at `now`.
    pub fn is_closed(&self, index: ProposalIndex, now: BlockNumber) -> (closed: bool)
        ensures
            closed == (index < self@.len() && self@[index as int].spec_is_closed(now)),
    {
        match self.get(index) {
            Some(p) => p.is_closed(now),
            None => false,
        }
    }
}

} // verus!
