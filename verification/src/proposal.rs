use vstd::prelude::*;
use frame_support::BoundedVec;
use frame_support::traits::ConstU32;
use crate::types::{BlockNumber, Vote};

verus! {

/// `frame_support::BoundedVec`, a vector whose length its second parameter
/// bounds. Nothing is claimed of what a value holds: it is carried as it is.
#[verifier::external_type_specification]
#[verifier::external_body]
#[verifier::reject_recursive_types(T)]
#[verifier::reject_recursive_types(S)]
pub struct ExBoundedVec<T, S>(BoundedVec<T, S>);

/// `frame_support::traits::ConstU32`, a bound written as a type.
#[verifier::external_type_specification]
#[verifier::external_body]
pub struct ExConstU32<const N: u32>(ConstU32<N>);

/// One decision item that is open for quadratic voting.
#[derive(Debug, PartialEq, Eq, Default)]
pub struct Proposal<AccountId, BlockNumber> {
    /// Number of votes that support proposal.
    pub aye: u128,
    /// Number of votes that are against proposal.
    pub nay: u128,
    /// Hash of the proposal.
    pub hash: BoundedVec<u8, ConstU32<32>>,
    /// Account that created the proposal.
    pub proposer: AccountId,
    /// Block number after which voting period is over.
    pub end: BlockNumber,
}

/// Proposals whose end is a block number, whoever made them.
impl<AccountId> Proposal<AccountId, BlockNumber> {
    /// Voting is accepted up to and including the block at which it ends.
    pub open spec fn spec_is_open(self, now: BlockNumber) -> bool {
        now <= self.end
    }

    /// Funds are handed back from the block at which voting ends. At that
    /// very block a proposal is open and closed at once.
    pub open spec fn spec_is_closed(self, now: BlockNumber) -> bool {
        now >= self.end
    }

    /// The tally on the side of `vote`.
    pub open spec fn tally(self, vote: Vote) -> u128 {
        match vote {
            Vote::Aye => self.aye,
            Vote::Nay => self.nay,
        }
    }

    /// This proposal after `votes` more votes on the side of `vote`.
    pub open spec fn with_votes(self, vote: Vote, votes: u128) -> Self {
        match vote {
            Vote::Aye => Proposal { aye: (self.aye + votes) as u128, ..self },
            Vote::Nay => Proposal { nay: (self.nay + votes) as u128, ..self },
        }
    }

    /// A proposal of `proposer` without votes, on which voting ends
    /// `voting_period` blocks after `now`.
    pub fn new(
        proposer: AccountId,
        hash: BoundedVec<u8, ConstU32<32>>,
        now: BlockNumber,
        voting_period: BlockNumber,
    ) -> (proposal: Self)
        requires
            now + voting_period <= u64::MAX,
        ensures
            proposal == (Proposal {
                aye: 0,
                nay: 0,
                hash,
                proposer,
                end: (now + voting_period) as BlockNumber,
            }),
    {
        Proposal { aye: 0, nay: 0, hash, proposer, end: now + voting_period }
    }

    /// Whether votes are still accepted at `now`.
    pub fn is_open(&self, now: BlockNumber) -> (open: bool)
        ensures
            open == self.spec_is_open(now),
    {
        now <= self.end
    }

    /// Whether locked funds can be handed back at `now`.
    pub fn is_closed(&self, now: BlockNumber) -> (closed: bool)
        ensures
            closed == self.spec_is_closed(now),
    {
        now >= self.end
    }

    /// Adds `votes` to the tally on the side of `vote`. Whether voting is
    /// still open is for the caller to decide.
    pub fn record_vote(&mut self, vote: Vote, votes: u128)
        requires
            old(self).tally(vote) + votes <= u128::MAX,
        ensures
            *final(self) == old(self).with_votes(vote, votes),
    {
        match vote {
            Vote::Aye => { self.aye = self.aye + votes; },
            Vote::Nay => { self.nay = self.nay + votes; },
        }
    }
}

} // verus!
