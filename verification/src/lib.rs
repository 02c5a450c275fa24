//! A small poll ledger: polls with bounded metadata and options, a voting
//! time window, per-voter vote receipts that prevent double voting, and
//! creator-gated closure.
//!
//! The ledger assigns monotonically increasing poll identifiers, keeps every
//! poll's tally in lockstep with its running vote total, and admits a
//! mutation only after all of its validation gates pass; a failed operation
//! leaves the ledger untouched.

pub mod errors;
pub mod laws;
pub mod ledger;
pub mod state;

pub use errors::VotingError;
pub use ledger::Ledger;
pub use state::{Identity, Poll, PollCounter, VoteRecord};
