//! The voting system inside a small host: accounts with balances, an identity
//! registry, a block counter and an event log.

use std::collections::BTreeMap;

use frame_support::traits::ConstU32;
use frame_support::BoundedVec;
use quadratic_voting::identity::{has_identity, IdentityVerifier};
use quadratic_voting::pallet::Pallet;
use quadratic_voting::types::{Error, Event};

type AccountId = u64;

/// Number of blocks that voting period lasts.
const VOTING_PERIOD: u64 = 10;

/// Accounts 1, 2 and 3 have set an identity; account 4 has not.
struct VotingIdentityVerifier;

impl IdentityVerifier<AccountId> for VotingIdentityVerifier {
    fn has_identity(who: &AccountId, _fields: u64) -> bool {
        matches!(*who, 1 | 2 | 3)
    }
}

/// Everything that an operation could change.
#[derive(Debug, PartialEq)]
struct Snapshot {
    proposals: Vec<(u128, u128, Vec<u8>, AccountId, u64)>,
    locked: Vec<Option<u128>>,
    free: BTreeMap<AccountId, u128>,
    reserved: BTreeMap<AccountId, u128>,
    events: Vec<Event>,
}

struct Test {
    voting: Pallet,
    block_number: u64,
    free: BTreeMap<AccountId, u128>,
    reserved: BTreeMap<AccountId, u128>,
    events: Vec<Event>,
}

impl Test {
    /// Four prefunded accounts, at block 1.
    fn new_test_ext() -> Test {
        let mut free = BTreeMap::new();
        let mut reserved = BTreeMap::new();
        for who in 1..=4u64 {
            free.insert(who, 50u128);
            reserved.insert(who, 0u128);
        }
        Test { voting: Pallet::new(), block_number: 1, free, reserved, events: Vec::new() }
    }

    fn set_block_number(&mut self, n: u64) {
        self.block_number = n;
    }

    fn currency_reserve(&mut self, who: AccountId, amount: u128) -> bool {
        let free = self.free[&who];
        if amount > free {
            return false;
        }
        self.free.insert(who, free - amount);
        let held = self.reserved[&who];
        self.reserved.insert(who, held + amount);
        true
    }

    fn currency_unreserve(&mut self, who: AccountId, amount: u128) {
        let held = self.reserved[&who];
        let back = amount.min(held);
        self.reserved.insert(who, held - back);
        let free = self.free[&who];
        self.free.insert(who, free + back);
    }

    fn propose(&mut self, who: AccountId, hash: BoundedVec<u8, ConstU32<32>>) -> Result<(), Error> {
        let identified = has_identity::<AccountId, VotingIdentityVerifier>(&who);
        assert!(self.voting.proposal_count() < u32::MAX);
        assert!(self.block_number.checked_add(VOTING_PERIOD).is_some());
        let event =
            self.voting.propose(who, identified, hash, self.block_number, VOTING_PERIOD)?;
        self.events.push(event);
        Ok(())
    }

    fn vote(&mut self, who: AccountId, proposal_index: u32, votes: u128, aye: bool) -> Result<(), Error> {
        let identified = has_identity::<AccountId, VotingIdentityVerifier>(&who);
        let now = self.block_number;
        let cost = self.voting.vote_cost(who, identified, now, proposal_index, votes)?;
        let reserved = self.currency_reserve(who, cost);
        let p = self.voting.proposals(proposal_index).expect("the vote was priced");
        let tally = if aye { p.aye } else { p.nay };
        assert!(tally.checked_add(votes).is_some());
        let event = if aye {
            self.voting.vote_aye(who, identified, now, proposal_index, votes, reserved)?
        } else {
            self.voting.vote_nay(who, identified, now, proposal_index, votes, reserved)?
        };
        self.events.push(event);
        Ok(())
    }

    fn vote_aye(&mut self, who: AccountId, proposal_index: u32, votes: u128) -> Result<(), Error> {
        self.vote(who, proposal_index, votes, true)
    }

    fn vote_nay(&mut self, who: AccountId, proposal_index: u32, votes: u128) -> Result<(), Error> {
        self.vote(who, proposal_index, votes, false)
    }

    fn unreserve(&mut self, who: AccountId, proposal_index: u32) -> Result<(), Error> {
        let amount = self.voting.unreserve(who, self.block_number, proposal_index)?;
        self.currency_unreserve(who, amount);
        Ok(())
    }

    fn snapshot(&self) -> Snapshot {
        let count = self.voting.proposal_count();
        let mut proposals = Vec::new();
        let mut locked = Vec::new();
        for index in 0..count {
            let p = self.voting.proposals(index).expect("an index below the count");
            proposals.push((p.aye, p.nay, p.hash.to_vec(), p.proposer, p.end));
        }
        for index in 0..=count {
            for who in 1..=4u64 {
                locked.push(self.voting.reserved_tokens(index, who));
            }
        }
        Snapshot {
            proposals,
            locked,
            free: self.free.clone(),
            reserved: self.reserved.clone(),
            events: self.events.clone(),
        }
    }

    fn assert_last_event(&self, event: Event) {
        assert_eq!(self.events.last(), Some(&event));
    }
}

/// The call succeeds.
fn assert_ok(res: Result<(), Error>) {
    assert_eq!(res, Ok(()));
}

/// The call fails with `expected` and changes nothing.
fn assert_noop(t: &mut Test, call: impl FnOnce(&mut Test) -> Result<(), Error>, expected: Error) {
    let before = t.snapshot();
    let res = call(t);
    assert_eq!(res, Err(expected));
    assert_eq!(t.snapshot(), before);
}

#[test]
fn proposal_creation() {
    let mut t = Test::new_test_ext();
    let proposer_with_identity = 1;
    let proposer_without_identity = 4;
    let proposal: BoundedVec<u8, ConstU32<32>> = BoundedVec::default();

    // Fail if user has no registered identity.
    let hash = proposal.clone();
    assert_noop(&mut t, |t| t.propose(proposer_without_identity, hash), Error::MissingIdentity);
    // Success if user has registered indetity.
    assert_ok(t.propose(proposer_with_identity, proposal));
    // Check that valid event is emitted after succesful proposal.
    t.assert_last_event(Event::Proposed(0));
}

#[test]
fn vote_aye_for_proposal() {
    let mut t = Test::new_test_ext();
    let proposer_with_identity = 1;
    let voter_with_identity = 2;
    let voter_late = 3;
    let voter_without_identity = 4;
    let proposal: BoundedVec<u8, ConstU32<32>> = BoundedVec::default();
    let proposal_index = 0;
    let proposal_index_missing = 1;
    let number_of_votes = 3;

    // Create proposal for voting.
    assert_ok(t.propose(proposer_with_identity, proposal));
    // Fail because user has no identity.
    assert_noop(
        &mut t,
        |t| t.vote_aye(voter_without_identity, proposal_index, number_of_votes),
        Error::MissingIdentity,
    );
    // Fail because user voted for unexisting proposal.
    assert_noop(
        &mut t,
        |t| t.vote_aye(voter_with_identity, proposal_index_missing, number_of_votes),
        Error::UnexistingProposal,
    );
    // Successful voting.
    assert_ok(t.vote_aye(voter_with_identity, proposal_index, number_of_votes));
    // Check that last event is voted aye for proposal.
    t.assert_last_event(Event::VotedAye(0));
    // Fail because user has already voted for the proposal.
    assert_noop(
        &mut t,
        |t| t.vote_aye(voter_with_identity, proposal_index, number_of_votes),
        Error::AlreadyVoted,
    );
    // Set block number to be after the voting period deadline.
    t.set_block_number(20);
    // Fail because voting period is over and user cannot vote.
    assert_noop(
        &mut t,
        |t| t.vote_aye(voter_late, proposal_index, number_of_votes),
        Error::VotingEnded,
    );
}

#[test]
fn vote_aye_on_multiple_proposals() {
    let mut t = Test::new_test_ext();
    let first_proposer_with_identity = 1;
    let second_proposer_with_identity = 2;
    let voter = 3;
    let proposal: BoundedVec<u8, ConstU32<32>> = BoundedVec::default();
    let first_proposal_index = 0;
    let second_proposal_index = 1;
    let number_of_votes = 3;

    // Create first and second proposal for voting.
    assert_ok(t.propose(first_proposer_with_identity, proposal.clone()));
    assert_ok(t.propose(second_proposer_with_identity, proposal));
    // Vote for first proposal and check that expected event is emmited.
    assert_ok(t.vote_aye(voter, first_proposal_index, number_of_votes));
    t.assert_last_event(Event::VotedAye(0));
    // Vote for second proposal and check that expected event is emmited.
    assert_ok(t.vote_aye(voter, second_proposal_index, number_of_votes));
    t.assert_last_event(Event::VotedAye(1));
}

#[test]
fn vote_nay_for_proposal() {
    let mut t = Test::new_test_ext();
    let proposer_with_identity = 1;
    let voter_with_identity = 2;
    let voter_late = 3;
    let voter_without_identity = 4;
    let proposal: BoundedVec<u8, ConstU32<32>> = BoundedVec::default();
    let proposal_index = 0;
    let proposal_index_missing = 1;
    let number_of_votes = 3;

    // Create proposal for voting.
    assert_ok(t.propose(proposer_with_identity, proposal));
    // Fail because user has no identity.
    assert_noop(
        &mut t,
        |t| t.vote_nay(voter_without_identity, proposal_index, number_of_votes),
        Error::MissingIdentity,
    );
    // Fail because user voted for unexisting proposal.
    assert_noop(
        &mut t,
        |t| t.vote_nay(voter_with_identity, proposal_index_missing, number_of_votes),
        Error::UnexistingProposal,
    );
    // Successful voting.
    assert_ok(t.vote_nay(voter_with_identity, proposal_index, number_of_votes));
    // Check that last event is voted nay for proposal.
    t.assert_last_event(Event::VotedNay(0));
    // Fail because user has already voted for the proposal.
    assert_noop(
        &mut t,
        |t| t.vote_nay(voter_with_identity, proposal_index, number_of_votes),
        Error::AlreadyVoted,
    );
    // Set block number to be after the voting period deadline.
    t.set_block_number(20);
    // Fail because voting period is over and user cannot vote.
    assert_noop(
        &mut t,
        |t| t.vote_nay(voter_late, proposal_index, number_of_votes),
        Error::VotingEnded,
    );
}

#[test]
fn vote_nay_on_multiple_proposals() {
    let mut t = Test::new_test_ext();
    let first_proposer_with_identity = 1;
    let second_proposer_with_identity = 2;
    let voter = 3;
    let proposal: BoundedVec<u8, ConstU32<32>> = BoundedVec::default();
    let first_proposal_index = 0;
    let second_proposal_index = 1;
    let number_of_votes = 3;

    // Create first and second proposal for voting.
    assert_ok(t.propose(first_proposer_with_identity, proposal.clone()));
    assert_ok(t.propose(second_proposer_with_identity, proposal));
    // Vote for first proposal and check that expected event is emmited.
    assert_ok(t.vote_nay(voter, first_proposal_index, number_of_votes));
    t.assert_last_event(Event::VotedNay(0));
    // Vote for second proposal and check that expected event is emmited.
    assert_ok(t.vote_nay(voter, second_proposal_index, number_of_votes));
    t.assert_last_event(Event::VotedNay(1));
}

#[test]
fn vote_aye_then_nay_on_same_proposal() {
    let mut t = Test::new_test_ext();
    let proposer = 1;
    let voter = 2;
    let proposal: BoundedVec<u8, ConstU32<32>> = BoundedVec::default();
    let proposal_index = 0;
    let number_of_votes = 3;

    // Create proposal for voting.
    assert_ok(t.propose(proposer, proposal));
    // Vote for the proposal and check that correct event is emmited.
    assert_ok(t.vote_aye(voter, proposal_index, number_of_votes));
    t.assert_last_event(Event::VotedAye(0));
    // Fail because user already voted aye on same proposal.
    assert_noop(
        &mut t,
        |t| t.vote_nay(voter, proposal_index, number_of_votes),
        Error::AlreadyVoted,
    );
    // Check that last event didn't changed.
    t.assert_last_event(Event::VotedAye(0));
}

#[test]
fn unreserve_tokens_after_voting() {
    let mut t = Test::new_test_ext();
    let proposer = 1;
    let voter = 2;
    let not_voter = 3;
    let proposal: BoundedVec<u8, ConstU32<32>> = BoundedVec::default();
    let proposal_index = 0;
    let proposal_index_unexisting = 1;
    let number_of_votes = 3;

    // Create proposal for voting.
    assert_ok(t.propose(proposer, proposal));
    // Vote to support some proposal and check emitted event.
    assert_ok(t.vote_aye(voter, proposal_index, number_of_votes));
    t.assert_last_event(Event::VotedAye(0));
    // Fail because user tried to unreserve tokens from unexisting proposal.
    assert_noop(
        &mut t,
        |t| t.unreserve(voter, proposal_index_unexisting),
        Error::UnexistingProposal,
    );
    // Fail because user tried to unreserve tokens while the voting is ongoing
    assert_noop(&mut t, |t| t.unreserve(voter, proposal_index), Error::VotingNotEnded);
    // Set block number to be after the voting ended.
    t.set_block_number(20);
    // Fail because user tried to unreserve tokens but the user didn't voted at all.
    assert_noop(&mut t, |t| t.unreserve(not_voter, proposal_index), Error::NotVoted);
    // Successful unlocking of tokens.
    assert_ok(t.unreserve(voter, proposal_index));
}

#[test]
fn funds_move_with_the_vote_and_back() {
    let mut t = Test::new_test_ext();
    assert_ok(t.propose(1, BoundedVec::default()));
    assert_ok(t.vote_aye(2, 0, 3));
    assert_eq!(t.free[&2], 41);
    assert_eq!(t.reserved[&2], 9);
    assert_eq!(t.voting.reserved_tokens(0, 2), Some(9));
    t.set_block_number(20);
    assert_ok(t.unreserve(2, 0));
    assert_eq!(t.free[&2], 50);
    assert_eq!(t.reserved[&2], 0);
    assert_eq!(t.voting.reserved_tokens(0, 2), None);
    assert_noop(&mut t, |t| t.unreserve(2, 0), Error::NotVoted);
}

#[test]
fn a_vote_that_cannot_be_paid_changes_nothing() {
    let mut t = Test::new_test_ext();
    assert_ok(t.propose(1, BoundedVec::default()));
    // 8 votes cost 64, and the account holds 50.
    assert_noop(&mut t, |t| t.vote_aye(2, 0, 8), Error::InsufficientFunds);
    assert_noop(&mut t, |t| t.vote_nay(2, 0, 8), Error::InsufficientFunds);
    // 7 votes cost 49.
    assert_ok(t.vote_nay(2, 0, 7));
    assert_eq!(t.free[&2], 1);
    assert_eq!(t.voting.proposals(0).map(|p| (p.aye, p.nay)), Some((0, 7)));
}

#[test]
fn vote_after_unreserve_moves_no_funds() {
    let mut t = Test::new_test_ext();
    assert_ok(t.propose(1, BoundedVec::default()));
    // Block 11 is the last block of voting.
    t.set_block_number(11);
    assert_ok(t.vote_aye(2, 0, 3));
    assert_ok(t.unreserve(2, 0));
    assert_eq!(t.free[&2], 50);
    assert_noop(&mut t, |t| t.vote_aye(2, 0, 3), Error::AlreadyVoted);
    assert_noop(&mut t, |t| t.vote_nay(2, 0, 1), Error::AlreadyVoted);
    assert_noop(&mut t, |t| t.unreserve(2, 0), Error::NotVoted);
    assert_eq!(t.free[&2], 50);
    assert_eq!(t.reserved[&2], 0);
    t.assert_last_event(Event::VotedAye(0));
}
