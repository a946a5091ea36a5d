use vstd::prelude::*;
use frame_support::BoundedVec;
use frame_support::traits::ConstU32;
use crate::ledger::VoteLedger;
use crate::proposal::Proposal;
use crate::registry::ProposalRegistry;
use crate::rules::{unreserve_amount, vote_cost};
use crate::state::VotingState;
use crate::types::{AccountId, Balance, BlockNumber, Error, Event, ProposalIndex, Vote};

verus! {

/// The voting system: the proposals and the funds locked for votes on them.
///
/// Each operation either takes effect as a whole or leaves everything as it
/// was. What only the host knows (whether the caller has an identity, the
/// current block, whether funds could be locked) is handed in by the caller;
/// what the host has to do after an operation (announce an event, unlock
/// funds) is handed back.
pub struct Pallet {
    proposals: ProposalRegistry,
    reserved: VoteLedger,
}

impl View for Pallet {
    type V = VotingState;

    closed spec fn view(&self) -> VotingState {
        VotingState {
            proposals: self.proposals@,
            reserved: self.reserved@.locked,
            released: self.reserved@.released,
        }
    }
}

impl Pallet {
    /// What the operations rely on and keep.
    pub open spec fn wf(&self) -> bool {
        self@.wf()
    }

    /// A voting system without proposals.
    pub fn new() -> (pallet: Self)
        ensures
            pallet.wf(),
            pallet@ == VotingState::empty(),
    {
        Pallet { proposals: ProposalRegistry::new(), reserved: VoteLedger::new() }
    }

    /// Number of proposals that have been made.
    pub fn proposal_count(&self) -> (count: ProposalIndex)
        requires
            self.wf(),
        ensures
            count == self@.proposals.len(),
    {
        self.proposals.count()
    }

    /// The proposal at `proposal_index`, if one has been made.
    pub fn proposals(&self, proposal_index: ProposalIndex) -> (found: Option<
        &Proposal<AccountId, BlockNumber>,
    >)
        ensures
            found == self@.proposal(proposal_index),
    {
        self.proposals.get(proposal_index)
    }

    /// The funds of `who` that are locked for its vote on the proposal.
    pub fn reserved_tokens(&self, proposal_index: ProposalIndex, who: AccountId) -> (amount:
        Option<Balance>)
        ensures
            amount == self@.locked(proposal_index, who),
    {
        self.reserved.locked_amount(proposal_index, who)
    }

    /// Create a proposal for voting using quadratic voting system.
    ///
    /// `who` needs an identity. Voting on the proposal ends `voting_period`
    /// blocks after `now`. On success the event to announce, which carries
    /// the new proposal's index, is returned.
    pub fn propose(
        &mut self,
        who: AccountId,
        has_identity: bool,
        hash: BoundedVec<u8, ConstU32<32>>,
        now: BlockNumber,
        voting_period: BlockNumber,
    ) -> (res: Result<Event, Error>)
        requires
            old(self).wf(),
            has_identity ==> old(self)@.proposals.len() < u32::MAX,
            has_identity ==> now + voting_period <= u64::MAX,
        ensures
            final(self).wf(),
            res == old(self)@.propose_result(has_identity),
            final(self)@ == old(self)@.after_propose(who, has_identity, hash, now, voting_period),
    {
        if !has_identity {
            return Err(Error::MissingIdentity);
        }
        let proposal_index = self.proposals.create(who, hash, now, voting_period);
        assert(self@.reserved == old(self)@.reserved);
        assert(self@.released == old(self)@.released);
        Ok(Event::Proposed(proposal_index))
    }

    /// What has to be locked from `who` before its vote of `votes` votes on
    /// the proposal can be cast, or why the vote is refused before any funds
    /// are touched.
    pub fn vote_cost(
        &self,
        who: AccountId,
        has_identity: bool,
        now: BlockNumber,
        proposal_index: ProposalIndex,
        votes: u128,
    ) -> (res: Result<Balance, Error>)
        ensures
            res == self@.vote_cost(who, has_identity, now, proposal_index, votes),
    {
        vote_cost(
            has_identity,
            self.proposals.get(proposal_index),
            now,
            self.reserved.has_voted(proposal_index, who),
            votes,
        )
    }

    /// Casts `votes` votes of `who` on the proposal, on the side of `vote`.
    ///
    /// The vote is refused, in this order, if `who` has no identity, the
    /// proposal does not exist, voting on it is over, `who` has voted on it
    /// already (be the funds of that vote still locked or handed back), the
    /// price of the votes is beyond what a balance holds, or the price could
    /// not be locked (`reserved` is false). Otherwise the votes are added to
    /// the tally on that side, their price is recorded as locked for `who`,
    /// and the event to announce is returned.
    ///
    /// The price is what `vote_cost` returns: the caller asks for it, has it
    /// locked, and hands in as `reserved` whether that succeeded.
    ///
    /// A vote of no votes costs nothing and still counts as the vote of
    /// `who` on the proposal. At the block at which voting ends votes are
    /// still taken, though funds are handed back from that block on.
    pub fn vote(
        &mut self,
        who: AccountId,
        has_identity: bool,
        now: BlockNumber,
        proposal_index: ProposalIndex,
        vote: Vote,
        votes: u128,
        reserved: bool,
    ) -> (res: Result<Event, Error>)
        requires
            old(self).wf(),
            old(self)@.vote_result(who, has_identity, now, proposal_index, vote, votes, reserved)
                is Ok ==> old(self)@.proposals[proposal_index as int].tally(vote) + votes
                <= u128::MAX,
        ensures
            final(self).wf(),
            res == old(self)@.vote_result(
                who,
                has_identity,
                now,
                proposal_index,
                vote,
                votes,
                reserved,
            ),
            final(self)@ == old(self)@.after_vote(
                who,
                has_identity,
                now,
                proposal_index,
                vote,
                votes,
                reserved,
            ),
    {
        let amount = match self.vote_cost(who, has_identity, now, proposal_index, votes) {
            Ok(amount) => amount,
            Err(e) => { return Err(e); },
        };
        if !reserved {
            return Err(Error::InsufficientFunds);
        }
        self.proposals.record_vote(proposal_index, vote, votes);
        let locked = self.reserved.lock(proposal_index, who, amount);
        assert(locked is Ok);
        match vote {
            Vote::Aye => Ok(Event::VotedAye(proposal_index)),
            Vote::Nay => Ok(Event::VotedNay(proposal_index)),
        }
    }

    /// Vote for proposal at proposal index with one or more votes.
    ///
    /// This is `vote` on the side in favour: the votes are added to `aye`.
    pub fn vote_aye(
        &mut self,
        who: AccountId,
        has_identity: bool,
        now: BlockNumber,
        proposal_index: ProposalIndex,
        votes: u128,
        reserved: bool,
    ) -> (res: Result<Event, Error>)
        requires
            old(self).wf(),
            old(self)@.vote_result(
                who,
                has_identity,
                now,
                proposal_index,
                Vote::Aye,
                votes,
                reserved,
            ) is Ok ==> old(self)@.proposals[proposal_index as int].aye + votes <= u128::MAX,
        ensures
            final(self).wf(),
            res == old(self)@.vote_result(
                who,
                has_identity,
                now,
                proposal_index,
                Vote::Aye,
                votes,
                reserved,
            ),
            final(self)@ == old(self)@.after_vote(
                who,
                has_identity,
                now,
                proposal_index,
                Vote::Aye,
                votes,
                reserved,
            ),
    {
        self.vote(who, has_identity, now, proposal_index, Vote::Aye, votes, reserved)
    }

    /// Vote against proposal at proposal index with one or more votes.
    ///
    /// This is `vote` on the side against: the votes are added to `nay`.
    pub fn vote_nay(
        &mut self,
        who: AccountId,
        has_identity: bool,
        now: BlockNumber,
        proposal_index: ProposalIndex,
        votes: u128,
        reserved: bool,
    ) -> (res: Result<Event, Error>)
        requires
            old(self).wf(),
            old(self)@.vote_result(
                who,
                has_identity,
                now,
                proposal_index,
                Vote::Nay,
                votes,
                reserved,
            ) is Ok ==> old(self)@.proposals[proposal_index as int].nay + votes <= u128::MAX,
        ensures
            final(self).wf(),
            res == old(self)@.vote_result(
                who,
                has_identity,
                now,
                proposal_index,
                Vote::Nay,
                votes,
                reserved,
            ),
            final(self)@ == old(self)@.after_vote(
                who,
                has_identity,
                now,
                proposal_index,
                Vote::Nay,
                votes,
                reserved,
            ),
    {
        self.vote(who, has_identity, now, proposal_index, Vote::Nay, votes, reserved)
    }

    /// Unreserve tokens after voting period is ended.
    ///
    /// Nothing is handed back, in this order, if the proposal does not
    /// exist, voting on it is not over, or nothing is locked for a vote of
    /// `who` on it. Otherwise the record of the vote is removed and the
    /// amount to unlock is returned.
    ///
    /// The tallies keep the votes, and it stays known that `who` has voted:
    /// a second request finds nothing locked, and `who` cannot vote on the
    /// proposal again, not even at the one block at which voting ends and
    /// funds are already handed back.
    pub fn unreserve(&mut self, who: AccountId, now: BlockNumber, proposal_index: ProposalIndex) -> (res:
        Result<Balance, Error>)
        requires
            old(self).wf(),
        ensures
            final(self).wf(),
            res == old(self)@.unreserve_result(who, now, proposal_index),
            final(self)@ == old(self)@.after_unreserve(who, now, proposal_index),
    {
        let decided = unreserve_amount(
            self.proposals.get(proposal_index),
            now,
            self.reserved.locked_amount(proposal_index, who),
        );
        if decided.is_err() {
            return decided;
        }
        self.reserved.take(proposal_index, who)
    }
}

} // verus!
