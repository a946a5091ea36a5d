use vstd::prelude::*;

verus! {

/// An index of a proposal.
pub type ProposalIndex = u32;

/// The identity of an account.
pub type AccountId = u64;

/// A point on the clock's timeline, counted in blocks.
pub type BlockNumber = u64;

/// An amount of funds.
pub type Balance = u128;

/// What an operation asks its caller to announce once it has succeeded.
#[derive(Clone, Copy, Debug, PartialEq, Eq, Structural)]
pub enum Event {
    /// New proposal has been created with determined index proposal.
    Proposed(ProposalIndex),
    /// User supported some proposal with his votes.
    VotedAye(ProposalIndex),
    /// User voted against some proposal with his votes.
    VotedNay(ProposalIndex),
}

/// Why an operation was refused.
#[derive(Clone, Copy, Debug, PartialEq, Eq, Structural)]
pub enum Error {
    /// Proposal at provided index does not exist.
    UnexistingProposal,
    /// Voting period is over.
    VotingEnded,
    /// Voting period is ongoing.
    VotingNotEnded,
    /// User didn't vote so it cannot unreserve any tokens.
    NotVoted,
    /// User does not have identity which is required to be eligible to vote.
    MissingIdentity,
    /// User has tried to vote multiple times on one proposal, but possible only once.
    AlreadyVoted,
    /// The square of the number of votes does not fit in a balance.
    Overflow,
    /// The funds for the vote could not be locked.
    InsufficientFunds,
}

/// The side that a vote takes.
#[derive(Clone, Copy, Debug, PartialEq, Eq, Structural)]
pub enum Vote {
    /// In support of the proposal.
    Aye,
    /// Against the proposal.
    Nay,
}

} // verus!
