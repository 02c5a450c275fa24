//! The failure kinds of the ledger's operations.
//!
//! Every failure is a precondition violation detected before any mutation:
//! an operation either succeeds in full or returns one of these and leaves
//! the ledger exactly as it was.

use vstd::prelude::*;

verus! {

/// One named failure kind per rejected precondition.
#[derive(Clone, Copy, Debug, PartialEq, Eq, Structural)]
pub enum VotingError {
    /// Poll title is too long.
    TitleTooLong,
    /// Poll description is too long.
    DescriptionTooLong,
    /// Option text is too long.
    OptionTooLong,
    /// Too many options.
    TooManyOptions,
    /// Not enough options.
    NotEnoughOptions,
    /// Option index is out of range for the poll.
    InvalidOptionIndex,
    /// Poll has ended.
    PollEnded,
    /// Poll has not started yet.
    PollNotStarted,
    /// Poll is not active (closed, or no poll exists under the identifier).
    PollNotActive,
    /// The voter already holds a receipt for this poll.
    AlreadyVoted,
    /// The voting window is empty or already over at creation time.
    InvalidTimeRange,
    /// Only the poll creator may close the poll.
    UnauthorizedClose,
}

} // verus!
