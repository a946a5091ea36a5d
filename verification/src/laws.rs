use vstd::prelude::*;
use frame_support::BoundedVec;
use frame_support::traits::ConstU32;
use crate::pricing::price;
use crate::proposal::Proposal;
use crate::state::{proposals_made, vote_event, Operation, VotingState};
use crate::types::{AccountId, Balance, BlockNumber, Error, Event, ProposalIndex, Vote};

verus! {

/// Proposals are numbered in the order in which they are made, from 0 on and
/// without gaps, whoever makes them; votes and funds handed back do not
/// change the numbering.
pub proof fn law_indices_are_sequential(
    state: VotingState,
    who: AccountId,
    hash: BoundedVec<u8, ConstU32<32>>,
    now: BlockNumber,
    voting_period: BlockNumber,
)
    requires
        state.wf(),
        state.proposals.len() < u32::MAX,
    ensures
        VotingState::empty().propose_result(true) == Ok::<Event, Error>(Event::Proposed(0)),
        state.propose_result(true) == Ok::<Event, Error>(
            Event::Proposed(state.proposals.len() as ProposalIndex),
        ),
        state.after_propose(who, true, hash, now, voting_period).propose_result(true) == Ok::<
            Event,
            Error,
        >(Event::Proposed((state.proposals.len() + 1) as ProposalIndex)),
        forall|
            voter: AccountId,
            has_identity: bool,
            at: BlockNumber,
            proposal_index: ProposalIndex,
            vote: Vote,
            votes: u128,
            reserved: bool,
        |
            (#[trigger] state.after_vote(
                voter,
                has_identity,
                at,
                proposal_index,
                vote,
                votes,
                reserved,
            )).proposals.len() == state.proposals.len(),
        forall|voter: AccountId, at: BlockNumber, proposal_index: ProposalIndex|
            (#[trigger] state.after_unreserve(voter, at, proposal_index)).proposals.len()
                == state.proposals.len(),
{
}

/// Once a vote has been cast, the account counts as having voted on the
/// proposal, and while voting is open every further vote of that account
/// on it, on either side, is refused with `AlreadyVoted` and changes
/// nothing.
pub proof fn law_one_vote_per_account(
    state: VotingState,
    who: AccountId,
    has_identity: bool,
    now: BlockNumber,
    proposal_index: ProposalIndex,
    vote: Vote,
    votes: u128,
    reserved: bool,
    again_at: BlockNumber,
    again_vote: Vote,
    again_votes: u128,
    again_reserved: bool,
)
    requires
        state.vote_result(who, has_identity, now, proposal_index, vote, votes, reserved) is Ok,
        state.proposals[proposal_index as int].spec_is_open(again_at),
    ensures
        ({
            let voted = state.after_vote(
                who,
                has_identity,
                now,
                proposal_index,
                vote,
                votes,
                reserved,
            );
            &&& voted.has_voted(proposal_index, who)
            &&& voted.reserved[(proposal_index, who)] == price(votes as int)
            &&& voted.vote_result(
                who,
                true,
                again_at,
                proposal_index,
                again_vote,
                again_votes,
                again_reserved,
            ) == Err::<Event, Error>(Error::AlreadyVoted)
            &&& voted.after_vote(
                who,
                true,
                again_at,
                proposal_index,
                again_vote,
                again_votes,
                again_reserved,
            ) == voted
        }),
{
}

/// On an existing proposal a vote is refused with `VotingEnded` at every
/// block after the one at which voting ends. Up to and including that block
/// it is cast, if the voter has an identity and has not voted on the
/// proposal, and the price of the votes fits a balance and was locked.
pub proof fn law_votes_until_the_end(
    state: VotingState,
    who: AccountId,
    now: BlockNumber,
    proposal_index: ProposalIndex,
    vote: Vote,
    votes: u128,
    reserved: bool,
)
    requires
        proposal_index < state.proposals.len(),
    ensures
        now > state.proposals[proposal_index as int].end ==> state.vote_result(
            who,
            true,
            now,
            proposal_index,
            vote,
            votes,
            reserved,
        ) == Err::<Event, Error>(Error::VotingEnded),
        now <= state.proposals[proposal_index as int].end && !state.has_voted(proposal_index, who)
            && price(votes as int) <= u128::MAX ==> state.vote_result(
            who,
            true,
            now,
            proposal_index,
            vote,
            votes,
            true,
        ) == Ok::<Event, Error>(vote_event(vote, proposal_index)),
{
}

/// On an existing proposal nothing is handed back before the block at which
/// voting ends: the attempt is refused with `VotingNotEnded`. From that
/// block on, an account gets back what is locked for its vote, and an
/// account for which nothing is locked is refused with `NotVoted`.
pub proof fn law_funds_back_from_the_end(
    state: VotingState,
    who: AccountId,
    now: BlockNumber,
    proposal_index: ProposalIndex,
)
    requires
        proposal_index < state.proposals.len(),
    ensures
        now < state.proposals[proposal_index as int].end ==> state.unreserve_result(
            who,
            now,
            proposal_index,
        ) == Err::<Balance, Error>(Error::VotingNotEnded),
        now >= state.proposals[proposal_index as int].end && state.reserved.contains_key(
            (proposal_index, who),
        ) ==> state.unreserve_result(who, now, proposal_index) == Ok::<Balance, Error>(
            state.reserved[(proposal_index, who)],
        ),
        now >= state.proposals[proposal_index as int].end && !state.reserved.contains_key(
            (proposal_index, who),
        ) ==> state.unreserve_result(who, now, proposal_index) == Err::<Balance, Error>(
            Error::NotVoted,
        ),
{
}

/// The funds for a vote are handed back once: after that nothing is locked
/// for the vote, and a further attempt at the same block or later is refused
/// with `NotVoted` and changes nothing.
pub proof fn law_funds_back_once(
    state: VotingState,
    who: AccountId,
    now: BlockNumber,
    proposal_index: ProposalIndex,
    again_at: BlockNumber,
)
    requires
        state.unreserve_result(who, now, proposal_index) is Ok,
        again_at >= now,
    ensures
        ({
            let released = state.after_unreserve(who, now, proposal_index);
            &&& released.locked(proposal_index, who) is None
            &&& released.has_voted(proposal_index, who)
            &&& released.unreserve_result(who, again_at, proposal_index) == Err::<Balance, Error>(
                Error::NotVoted,
            )
            &&& released.after_unreserve(who, again_at, proposal_index) == released
        }),
{
}

/// Without an identity nothing can be proposed and no vote can be cast:
/// the attempt is refused with `MissingIdentity`, whatever else holds, and
/// changes nothing.
pub proof fn law_identity_comes_first(
    state: VotingState,
    who: AccountId,
    hash: BoundedVec<u8, ConstU32<32>>,
    now: BlockNumber,
    voting_period: BlockNumber,
    proposal_index: ProposalIndex,
    vote: Vote,
    votes: u128,
    reserved: bool,
)
    ensures
        state.propose_result(false) == Err::<Event, Error>(Error::MissingIdentity),
        state.after_propose(who, false, hash, now, voting_period) == state,
        state.vote_cost(who, false, now, proposal_index, votes) == Err::<Balance, Error>(
            Error::MissingIdentity,
        ),
        state.vote_result(who, false, now, proposal_index, vote, votes, reserved) == Err::<
            Event,
            Error,
        >(Error::MissingIdentity),
        state.after_vote(who, false, now, proposal_index, vote, votes, reserved) == state,
{
}

/// An index that no proposal has yet is refused with `UnexistingProposal`,
/// for a vote of an account with an identity and for funds asked back, and
/// nothing changes.
pub proof fn law_no_proposal_no_effect(
    state: VotingState,
    who: AccountId,
    now: BlockNumber,
    proposal_index: ProposalIndex,
    vote: Vote,
    votes: u128,
    reserved: bool,
)
    requires
        proposal_index >= state.proposals.len(),
    ensures
        state.vote_result(who, true, now, proposal_index, vote, votes, reserved) == Err::<
            Event,
            Error,
        >(Error::UnexistingProposal),
        state.after_vote(who, true, now, proposal_index, vote, votes, reserved) == state,
        state.unreserve_result(who, now, proposal_index) == Err::<Balance, Error>(
            Error::UnexistingProposal,
        ),
        state.after_unreserve(who, now, proposal_index) == state,
{
}

/// The tallies of a proposal never shrink. They change only by a vote that
/// is cast on that proposal while it is open, and then by the number of
/// votes on the side of the vote; proposing and handing funds back leave
/// every proposal as it is.
pub proof fn law_tallies_only_grow(
    state: VotingState,
    who: AccountId,
    has_identity: bool,
    hash: BoundedVec<u8, ConstU32<32>>,
    now: BlockNumber,
    voting_period: BlockNumber,
    proposal_index: ProposalIndex,
    vote: Vote,
    votes: u128,
    reserved: bool,
    observed: ProposalIndex,
)
    requires
        observed < state.proposals.len(),
        state.vote_result(who, has_identity, now, proposal_index, vote, votes, reserved) is Ok
            ==> state.proposals[proposal_index as int].tally(vote) + votes <= u128::MAX,
    ensures
        ({
            let before = state.proposals[observed as int];
            let after = state.after_vote(
                who,
                has_identity,
                now,
                proposal_index,
                vote,
                votes,
                reserved,
            ).proposals[observed as int];
            &&& after.aye >= before.aye
            &&& after.nay >= before.nay
            &&& after != before ==> observed == proposal_index && before.spec_is_open(now)
                && after.tally(vote) == before.tally(vote) + votes
            &&& after.hash == before.hash && after.proposer == before.proposer && after.end
                == before.end
        }),
        state.after_propose(who, has_identity, hash, now, voting_period).proposals[observed as int]
            == state.proposals[observed as int],
        state.after_unreserve(who, now, proposal_index).proposals == state.proposals,
{
}

/// Funds are locked by a vote and by nothing else, and stay locked until
/// they are handed back: a vote that is cast locks the price of its votes
/// for the voter on that proposal and leaves every other lock as it is.
pub proof fn law_a_vote_locks_its_price(
    state: VotingState,
    who: AccountId,
    has_identity: bool,
    now: BlockNumber,
    proposal_index: ProposalIndex,
    vote: Vote,
    votes: u128,
    reserved: bool,
    other_index: ProposalIndex,
    other: AccountId,
)
    requires
        state.vote_result(who, has_identity, now, proposal_index, vote, votes, reserved) is Ok,
    ensures
        ({
            let after = state.after_vote(
                who,
                has_identity,
                now,
                proposal_index,
                vote,
                votes,
                reserved,
            );
            &&& !state.has_voted(proposal_index, who)
            &&& after.locked(proposal_index, who) == Some(price(votes as int) as Balance)
            &&& price(votes as int) <= u128::MAX
            &&& (other_index, other) != (proposal_index, who) ==> after.locked(other_index, other)
                == state.locked(other_index, other)
        }),
{
}

/// Once the funds for a vote have been handed back, that account cannot
/// vote on the proposal again, on either side and at whatever block, the
/// block at which voting ends included: the attempt is refused and changes
/// nothing, and where the account has an identity and voting is still open
/// it is refused with `AlreadyVoted`.
pub proof fn law_no_vote_after_funds_back(
    state: VotingState,
    who: AccountId,
    now: BlockNumber,
    proposal_index: ProposalIndex,
    again_at: BlockNumber,
    has_identity: bool,
    vote: Vote,
    votes: u128,
    reserved: bool,
)
    requires
        state.unreserve_result(who, now, proposal_index) is Ok,
    ensures
        ({
            let released = state.after_unreserve(who, now, proposal_index);
            &&& released.vote_cost(who, has_identity, again_at, proposal_index, votes) is Err
            &&& released.vote_result(
                who,
                has_identity,
                again_at,
                proposal_index,
                vote,
                votes,
                reserved,
            ) is Err
            &&& has_identity && released.proposals[proposal_index as int].spec_is_open(again_at)
                ==> released.vote_result(
                who,
                has_identity,
                again_at,
                proposal_index,
                vote,
                votes,
                reserved,
            ) == Err::<Event, Error>(Error::AlreadyVoted)
            &&& released.after_vote(
                who,
                has_identity,
                again_at,
                proposal_index,
                vote,
                votes,
                reserved,
            ) == released
        }),
{
}

/// Every operation keeps the state well formed.
pub proof fn law_operations_keep_the_state_well_formed(
    state: VotingState,
    who: AccountId,
    has_identity: bool,
    hash: BoundedVec<u8, ConstU32<32>>,
    now: BlockNumber,
    voting_period: BlockNumber,
    proposal_index: ProposalIndex,
    vote: Vote,
    votes: u128,
    reserved: bool,
)
    requires
        state.wf(),
    ensures
        VotingState::empty().wf(),
        state.proposals.len() < u32::MAX ==> state.after_propose(
            who,
            has_identity,
            hash,
            now,
            voting_period,
        ).wf(),
        state.after_vote(who, has_identity, now, proposal_index, vote, votes, reserved).wf(),
        state.after_unreserve(who, now, proposal_index).wf(),
{
}

/// A proposal of an account with an identity is stored without votes under
/// the next index, with its descriptor and its proposer, and that index is
/// announced; the proposals before it and all votes stay as they are. Its
/// voting ends `voting_period` blocks after `now`, where a block number can
/// hold that.
pub proof fn law_a_proposal_is_stored_under_the_next_index(
    state: VotingState,
    who: AccountId,
    hash: BoundedVec<u8, ConstU32<32>>,
    now: BlockNumber,
    voting_period: BlockNumber,
)
    requires
        state.wf(),
        state.proposals.len() < u32::MAX,
    ensures
        ({
            let n = state.proposals.len();
            let after = state.after_propose(who, true, hash, now, voting_period);
            &&& state.propose_result(true) == Ok::<Event, Error>(Event::Proposed(n as ProposalIndex))
            &&& after.proposals.len() == n + 1
            &&& after.proposals[n as int].aye == 0 && after.proposals[n as int].nay == 0
            &&& after.proposals[n as int].hash == hash
            &&& after.proposals[n as int].proposer == who
            &&& now + voting_period <= u64::MAX ==> after.proposals[n as int].end == now
                + voting_period
            &&& after.proposal(n as ProposalIndex) == Some(&after.proposals[n as int])
            &&& forall|i: int| 0 <= i < n ==> after.proposals[i] == state.proposals[i]
            &&& after.reserved == state.reserved
            &&& after.released == state.released
        }),
{
}

/// Two proposals in a row get two indices in a row, whoever makes them, be
/// it one account or two.
pub proof fn law_proposals_in_a_row_get_indices_in_a_row(
    state: VotingState,
    first: AccountId,
    first_hash: BoundedVec<u8, ConstU32<32>>,
    first_at: BlockNumber,
    second: AccountId,
    second_hash: BoundedVec<u8, ConstU32<32>>,
    second_at: BlockNumber,
    voting_period: BlockNumber,
)
    requires
        state.wf(),
        state.proposals.len() + 1 < u32::MAX,
    ensures
        ({
            let n = state.proposals.len();
            let once = state.after_propose(first, true, first_hash, first_at, voting_period);
            let twice = once.after_propose(second, true, second_hash, second_at, voting_period);
            &&& state.propose_result(true) == Ok::<Event, Error>(Event::Proposed(n as ProposalIndex))
            &&& once.propose_result(true) == Ok::<Event, Error>(
                Event::Proposed((n + 1) as ProposalIndex),
            )
            &&& twice.proposals.len() == n + 2
            &&& twice.proposals[n as int].proposer == first
            &&& twice.proposals[n as int + 1].proposer == second
        }),
{
}

/// Over any run of calls the count of proposals grows by one with each
/// proposal that is made and with nothing else: so the indices that a run
/// hands out are the numbers from the count at its start on, each once and
/// in order. From the empty state they are 0, 1, 2 and so on.
pub proof fn law_indices_count_the_proposals(state: VotingState, calls: Seq<Operation>)
    ensures
        state.after_all(calls).proposals.len() == state.proposals.len() + proposals_made(calls),
        VotingState::empty().after_all(calls).proposals.len() == proposals_made(calls),
    decreases calls.len(),
{
    if calls.len() > 0 {
        law_indices_count_the_proposals(state, calls.drop_last());
        law_indices_count_the_proposals(VotingState::empty(), calls.drop_last());
    }
}

/// A vote that is cast takes its whole effect and no other: the event of its
/// side is announced; the votes are added to the tally of its side, where
/// that can hold them, and the other tally, the descriptor, the proposer and
/// the end of the proposal stay as they are, as does every other proposal;
/// the price of the votes is locked for the voter, who now counts as having
/// voted; the locks are those from before and this one, and what was handed
/// back stays handed back.
pub proof fn law_a_cast_vote_takes_its_whole_effect(
    state: VotingState,
    who: AccountId,
    has_identity: bool,
    now: BlockNumber,
    proposal_index: ProposalIndex,
    vote: Vote,
    votes: u128,
    reserved: bool,
)
    requires
        state.vote_result(who, has_identity, now, proposal_index, vote, votes, reserved) is Ok,
    ensures
        ({
            let before = state.proposals[proposal_index as int];
            let voted = state.after_vote(
                who,
                has_identity,
                now,
                proposal_index,
                vote,
                votes,
                reserved,
            );
            let after = voted.proposals[proposal_index as int];
            &&& state.vote_result(who, has_identity, now, proposal_index, vote, votes, reserved)
                == Ok::<Event, Error>(vote_event(vote, proposal_index))
            &&& vote == Vote::Aye ==> after.nay == before.nay && (before.aye + votes <= u128::MAX
                ==> after.aye == before.aye + votes)
            &&& vote == Vote::Nay ==> after.aye == before.aye && (before.nay + votes <= u128::MAX
                ==> after.nay == before.nay + votes)
            &&& after.hash == before.hash && after.proposer == before.proposer && after.end
                == before.end
            &&& voted.proposals.len() == state.proposals.len()
            &&& forall|i: int|
                0 <= i < state.proposals.len() && i != proposal_index ==> voted.proposals[i]
                    == state.proposals[i]
            &&& voted.reserved.dom() == state.reserved.dom().insert((proposal_index, who))
            &&& !state.reserved.dom().contains((proposal_index, who))
            &&& voted.reserved[(proposal_index, who)] == votes * votes
            &&& voted.has_voted(proposal_index, who)
            &&& voted.released == state.released
        }),
{
}

/// Who has voted on a proposal has voted on it for good: whatever calls
/// follow, the account counts as having voted, and no further vote of it on
/// that proposal is cast.
pub proof fn law_a_vote_is_for_good(
    state: VotingState,
    who: AccountId,
    proposal_index: ProposalIndex,
    calls: Seq<Operation>,
    has_identity: bool,
    again_at: BlockNumber,
    vote: Vote,
    votes: u128,
    reserved: bool,
)
    requires
        state.has_voted(proposal_index, who),
    ensures
        ({
            let later = state.after_all(calls);
            &&& later.has_voted(proposal_index, who)
            &&& later.vote_result(
                who,
                has_identity,
                again_at,
                proposal_index,
                vote,
                votes,
                reserved,
            ) is Err
            &&& later.after_vote(who, has_identity, again_at, proposal_index, vote, votes, reserved)
                == later
        }),
    decreases calls.len(),
{
    if calls.len() > 0 {
        law_a_vote_is_for_good(
            state,
            who,
            proposal_index,
            calls.drop_last(),
            has_identity,
            again_at,
            vote,
            votes,
            reserved,
        );
    }
}

/// Funds that were handed back are handed back for good: whatever calls
/// follow, nothing is locked for that vote again, no further request for its
/// funds succeeds, and no further vote of that account on that proposal is
/// cast. Where the account has an identity and voting is still open, the
/// block at which it ends included, the vote is refused with `AlreadyVoted`.
pub proof fn law_funds_back_is_for_good(
    state: VotingState,
    who: AccountId,
    now: BlockNumber,
    proposal_index: ProposalIndex,
    calls: Seq<Operation>,
    has_identity: bool,
    again_at: BlockNumber,
    vote: Vote,
    votes: u128,
    reserved: bool,
)
    requires
        state.unreserve_result(who, now, proposal_index) is Ok,
    ensures
        ({
            let later = state.after_unreserve(who, now, proposal_index).after_all(calls);
            &&& later.released.contains((proposal_index, who))
            &&& later.locked(proposal_index, who) is None
            &&& later.unreserve_result(who, again_at, proposal_index) is Err
            &&& later.after_unreserve(who, again_at, proposal_index) == later
            &&& later.vote_result(
                who,
                has_identity,
                again_at,
                proposal_index,
                vote,
                votes,
                reserved,
            ) is Err
            &&& has_identity && proposal_index < later.proposals.len()
                && later.proposals[proposal_index as int].spec_is_open(again_at)
                ==> later.vote_result(
                who,
                has_identity,
                again_at,
                proposal_index,
                vote,
                votes,
                reserved,
            ) == Err::<Event, Error>(Error::AlreadyVoted)
            &&& later.after_vote(who, has_identity, again_at, proposal_index, vote, votes, reserved)
                == later
        }),
    decreases calls.len(),
{
    if calls.len() > 0 {
        law_funds_back_is_for_good(
            state,
            who,
            now,
            proposal_index,
            calls.drop_last(),
            has_identity,
            again_at,
            vote,
            votes,
            reserved,
        );
    }
}

} // verus!
