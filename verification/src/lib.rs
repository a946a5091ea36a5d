//! Quadratic voting: proposals are opened, backed or opposed with votes whose
//! cost grows with the square of their number, and the funds locked for a vote
//! are handed back once the voting window has closed.
//!
//! - [`pricing`]: what votes cost.
//! - [`proposal`], [`registry`]: a proposal, and the proposals by index.
//! - [`ledger`]: the votes by proposal and account, and the funds locked for
//!   them.
//! - [`rules`]: when a vote is taken and when funds are handed back.
//! - [`identity`]: the question to the host whether an account has an identity.
//! - [`pallet`]: the voting system, with its four operations.
//! - [`state`], [`laws`]: what the system holds, as mathematics, and what
//!   holds of every sequence of operations.
//!
//! The library decides and records. Its host authenticates callers, knows
//! the identities and the current block, holds the funds and announces the
//! events: it hands in what it knows and carries out what is handed back.

pub mod types;
pub mod pricing;
pub mod proposal;
pub mod rules;
pub mod identity;
pub mod registry;
pub mod ledger;
pub mod state;
pub mod pallet;
pub mod laws;
