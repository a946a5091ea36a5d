use vstd::prelude::*;
use frame_support::BoundedVec;
use frame_support::traits::ConstU32;
use crate::pricing::price;
use crate::proposal::Proposal;
use crate::rules::{spec_unreserve_amount, spec_vote_cost};
use crate::types::{AccountId, Balance, BlockNumber, Error, Event, ProposalIndex, Vote};

verus! {

/// What the voting system holds at one moment.
#[verifier::ext_equal]
pub struct VotingState {
    /// The proposals by index.
    pub proposals: Seq<Proposal<AccountId, BlockNumber>>,
    /// For each proposal and account the funds that are locked for its vote.
    pub reserved: Map<(ProposalIndex, AccountId), Balance>,
    /// The proposals and accounts whose vote had its funds handed back.
    pub released: Set<(ProposalIndex, AccountId)>,
}

/// One call of an operation, with everything that is handed in.
pub enum Operation {
    /// An attempt to make a proposal.
    Propose {
        who: AccountId,
        has_identity: bool,
        hash: BoundedVec<u8, ConstU32<32>>,
        now: BlockNumber,
        voting_period: BlockNumber,
    },
    /// An attempt to vote.
    Vote {
        who: AccountId,
        has_identity: bool,
        now: BlockNumber,
        proposal_index: ProposalIndex,
        vote: Vote,
        votes: u128,
        reserved: bool,
    },
    /// An attempt to take the funds for a vote back.
    Unreserve { who: AccountId, now: BlockNumber, proposal_index: ProposalIndex },
}

/// How many of the calls make a proposal: the attempts of callers with an
/// identity.
pub open spec fn proposals_made(calls: Seq<Operation>) -> nat
    decreases calls.len(),
{
    if calls.len() == 0 {
        0
    } else {
        let made: nat = match calls.last() {
            Operation::Propose { has_identity, .. } => if has_identity {
                1
            } else {
                0
            },
            _ => 0,
        };
        proposals_made(calls.drop_last()) + made
    }
}

/// What is announced after a vote on the side of `vote`.
pub open spec fn vote_event(vote: Vote, proposal_index: ProposalIndex) -> Event {
    match vote {
        Vote::Aye => Event::VotedAye(proposal_index),
        Vote::Nay => Event::VotedNay(proposal_index),
    }
}

impl VotingState {
    /// The state before anything was proposed.
    pub open spec fn empty() -> VotingState {
        VotingState { proposals: Seq::empty(), reserved: Map::empty(), released: Set::empty() }
    }

    /// Every proposal has an index, votes are on existing proposals only,
    /// and no vote has its funds both locked and handed back.
    pub open spec fn wf(self) -> bool {
        &&& self.proposals.len() <= u32::MAX
        &&& forall|key: (ProposalIndex, AccountId)| #[trigger]
            self.reserved.contains_key(key) ==> key.0 < self.proposals.len()
                && !self.released.contains(key)
        &&& forall|key: (ProposalIndex, AccountId)| #[trigger]
            self.released.contains(key) ==> key.0 < self.proposals.len()
    }

    /// The proposal at `proposal_index`, if one has been made.
    pub open spec fn proposal(&self, proposal_index: ProposalIndex) -> Option<
        &Proposal<AccountId, BlockNumber>,
    > {
        if proposal_index < self.proposals.len() {
            Some(&self.proposals[proposal_index as int])
        } else {
            None
        }
    }

    /// What is locked for the vote of `who` on the proposal, if anything.
    pub open spec fn locked(self, proposal_index: ProposalIndex, who: AccountId) -> Option<Balance> {
        if self.reserved.contains_key((proposal_index, who)) {
            Some(self.reserved[(proposal_index, who)])
        } else {
            None
        }
    }

    /// Whether `who` has voted on the proposal. An account that has voted
    /// has voted for all time, also once its funds were handed back.
    pub open spec fn has_voted(self, proposal_index: ProposalIndex, who: AccountId) -> bool {
        self.reserved.contains_key((proposal_index, who)) || self.released.contains(
            (proposal_index, who),
        )
    }

    /// How an attempt to propose ends: it needs an identity and nothing else.
    pub open spec fn propose_result(self, has_identity: bool) -> Result<Event, Error> {
        if !has_identity {
            Err(Error::MissingIdentity)
        } else {
            Ok(Event::Proposed(self.proposals.len() as ProposalIndex))
        }
    }

    /// The state with one more proposal, made by `who`, on which voting ends
    /// at `end`.
    pub open spec fn with_proposal(
        self,
        who: AccountId,
        hash: BoundedVec<u8, ConstU32<32>>,
        end: BlockNumber,
    ) -> VotingState {
        VotingState {
            proposals: self.proposals.push(
                Proposal { aye: 0, nay: 0, hash, proposer: who, end },
            ),
            ..self
        }
    }

    /// The state after an attempt to propose at `now`, with voting to end
    /// `voting_period` blocks later.
    pub open spec fn after_propose(
        self,
        who: AccountId,
        has_identity: bool,
        hash: BoundedVec<u8, ConstU32<32>>,
        now: BlockNumber,
        voting_period: BlockNumber,
    ) -> VotingState {
        if self.propose_result(has_identity) is Ok {
            self.with_proposal(who, hash, (now + voting_period) as BlockNumber)
        } else {
            self
        }
    }

    /// What has to be locked before `who` can cast `votes` votes on the
    /// proposal at `now`, or the first reason, in this order, for which the
    /// vote is refused: no identity, no such proposal, voting over, voted
    /// already, a price beyond what a balance holds.
    pub open spec fn vote_cost(
        self,
        who: AccountId,
        has_identity: bool,
        now: BlockNumber,
        proposal_index: ProposalIndex,
        votes: u128,
    ) -> Result<Balance, Error> {
        spec_vote_cost(
            has_identity,
            self.proposal(proposal_index),
            now,
            self.has_voted(proposal_index, who),
            votes,
        )
    }

    /// How a vote ends, `reserved` telling whether its cost could be locked:
    /// that is asked last, once nothing else stands against the vote.
    pub open spec fn vote_result(
        self,
        who: AccountId,
        has_identity: bool,
        now: BlockNumber,
        proposal_index: ProposalIndex,
        vote: Vote,
        votes: u128,
        reserved: bool,
    ) -> Result<Event, Error> {
        match self.vote_cost(who, has_identity, now, proposal_index, votes) {
            Err(e) => Err(e),
            Ok(_) => if reserved {
                Ok(vote_event(vote, proposal_index))
            } else {
                Err(Error::InsufficientFunds)
            },
        }
    }

    /// The state after `who` has cast `votes` votes on the side of `vote`:
    /// the tally has grown by the votes, and their price is locked.
    pub open spec fn with_vote(
        self,
        who: AccountId,
        proposal_index: ProposalIndex,
        vote: Vote,
        votes: u128,
    ) -> VotingState {
        VotingState {
            proposals: self.proposals.update(
                proposal_index as int,
                self.proposals[proposal_index as int].with_votes(vote, votes),
            ),
            reserved: self.reserved.insert((proposal_index, who), price(votes as int) as Balance),
            ..self
        }
    }

    /// The state after an attempt to vote: changed by a vote that was cast,
    /// and by no other.
    pub open spec fn after_vote(
        self,
        who: AccountId,
        has_identity: bool,
        now: BlockNumber,
        proposal_index: ProposalIndex,
        vote: Vote,
        votes: u128,
        reserved: bool,
    ) -> VotingState {
        if self.vote_result(who, has_identity, now, proposal_index, vote, votes, reserved) is Ok {
            self.with_vote(who, proposal_index, vote, votes)
        } else {
            self
        }
    }

    /// What `who` gets back for its vote on the proposal at `now`, or the
    /// first reason, in this order, for which nothing is handed back: no such
    /// proposal, voting not over, no vote.
    pub open spec fn unreserve_result(
        self,
        who: AccountId,
        now: BlockNumber,
        proposal_index: ProposalIndex,
    ) -> Result<Balance, Error> {
        spec_unreserve_amount(
            self.proposal(proposal_index),
            now,
            self.locked(proposal_index, who),
        )
    }

    /// The state after the funds for the vote of `who` on the proposal were
    /// handed back: nothing is locked for it any more, and it stays known
    /// that `who` has voted.
    pub open spec fn without_vote(self, who: AccountId, proposal_index: ProposalIndex) -> VotingState {
        VotingState {
            reserved: self.reserved.remove((proposal_index, who)),
            released: self.released.insert((proposal_index, who)),
            ..self
        }
    }

    /// The state after an attempt to take the funds for a vote back.
    pub open spec fn after_unreserve(
        self,
        who: AccountId,
        now: BlockNumber,
        proposal_index: ProposalIndex,
    ) -> VotingState {
        if self.unreserve_result(who, now, proposal_index) is Ok {
            self.without_vote(who, proposal_index)
        } else {
            self
        }
    }

    /// The state after one call.
    pub open spec fn after(self, call: Operation) -> VotingState {
        match call {
            Operation::Propose { who, has_identity, hash, now, voting_period } => self.after_propose(
                who,
                has_identity,
                hash,
                now,
                voting_period,
            ),
            Operation::Vote { who, has_identity, now, proposal_index, vote, votes, reserved } => self.after_vote(
                who,
                has_identity,
                now,
                proposal_index,
                vote,
                votes,
                reserved,
            ),
            Operation::Unreserve { who, now, proposal_index } => self.after_unreserve(
                who,
                now,
                proposal_index,
            ),
        }
    }

    /// The state after the calls, made one after the other.
    pub open spec fn after_all(self, calls: Seq<Operation>) -> VotingState
        decreases calls.len(),
    {
        if calls.len() == 0 {
            self
        } else {
            self.after_all(calls.drop_last()).after(calls.last())
        }
    }
}

} // verus!
