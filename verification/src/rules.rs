use vstd::prelude::*;
use crate::pallet::Pallet;
use crate::pricing::price;
use crate::proposal::Proposal;
use crate::types::{Balance, BlockNumber, Error};

verus! {

/// What has to be locked before a vote of `votes` votes can be cast at `now`
/// on `proposal`, or the first reason, in this order, for which the vote is
/// refused: the voter has no identity, there is no such proposal, voting on
/// it is over, the voter has voted on it already, the price of the votes is
/// beyond what a balance holds.
pub open spec fn spec_vote_cost<AccountId>(
    has_identity: bool,
    proposal: Option<&Proposal<AccountId, BlockNumber>>,
    now: BlockNumber,
    already_voted: bool,
    votes: u128,
) -> Result<Balance, Error> {
    if !has_identity {
        Err(Error::MissingIdentity)
    } else if proposal is None {
        Err(Error::UnexistingProposal)
    } else if !proposal->0.spec_is_open(now) {
        Err(Error::VotingEnded)
    } else if already_voted {
        Err(Error::AlreadyVoted)
    } else if price(votes as int) > u128::MAX {
        Err(Error::Overflow)
    } else {
        Ok(price(votes as int) as Balance)
    }
}

/// What is unlocked when a voter asks at `now` for the funds of its vote on
/// `proposal`, `locked` being what is locked for that vote, or the first
/// reason, in this order, for which nothing is handed back: there is no
/// such proposal, voting on it is not over, the voter has no vote on it.
pub open spec fn spec_unreserve_amount<AccountId>(
    proposal: Option<&Proposal<AccountId, BlockNumber>>,
    now: BlockNumber,
    locked: Option<Balance>,
) -> Result<Balance, Error> {
    if proposal is None {
        Err(Error::UnexistingProposal)
    } else if !proposal->0.spec_is_closed(now) {
        Err(Error::VotingNotEnded)
    } else if locked is None {
        Err(Error::NotVoted)
    } else {
        Ok(locked->0)
    }
}

/// Decides whether a vote can be cast, and at what price, before any funds
/// are touched.
pub fn vote_cost<AccountId>(
    has_identity: bool,
    proposal: Option<&Proposal<AccountId, BlockNumber>>,
    now: BlockNumber,
    already_voted: bool,
    votes: u128,
) -> (res: Result<Balance, Error>)
    ensures
        res == spec_vote_cost(has_identity, proposal, now, already_voted, votes),
{
    if !has_identity {
        return Err(Error::MissingIdentity);
    }
    match proposal {
        None => Err(Error::UnexistingProposal),
        Some(p) => {
            if !p.is_open(now) {
                Err(Error::VotingEnded)
            } else if already_voted {
                Err(Error::AlreadyVoted)
            } else {
                Pallet::calculate_price(votes)
            }
        },
    }
}

/// Decides whether the funds of a vote can be handed back, and how much.
pub fn unreserve_amount<AccountId>(
    proposal: Option<&Proposal<AccountId, BlockNumber>>,
    now: BlockNumber,
    locked: Option<Balance>,
) -> (res: Result<Balance, Error>)
    ensures
        res == spec_unreserve_amount(proposal, now, locked),
{
    match proposal {
        None => Err(Error::UnexistingProposal),
        Some(p) => {
            if !p.is_closed(now) {
                Err(Error::VotingNotEnded)
            } else {
                match locked {
                    None => Err(Error::NotVoted),
                    Some(amount) => Ok(amount),
                }
            }
        },
    }
}

} // verus!
