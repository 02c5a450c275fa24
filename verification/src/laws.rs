//! The laws of the ledger, stated once and proved from what the operations'
//! contracts and the well-formedness conditions already say.

use vstd::prelude::*;

use crate::errors::VotingError;
use crate::ledger::{close_check, vote_check, Ledger};
use crate::state::{tally_sum, Identity};

verus! {

/// Tally integrity: in a well-formed ledger, every poll's running total
/// equals the sum of its tally, and the tally has exactly one entry per
/// option. Every operation preserves well-formedness, so this holds at
/// every observable time.
pub proof fn lemma_poll_invariant(ledger: Ledger, poll_id: u64)
    requires
        ledger.wf(),
        poll_id < ledger.polls@.len(),
    ensures
        ledger.polls@[poll_id as int].total_votes == tally_sum(
            ledger.polls@[poll_id as int].votes@,
        ),
        ledger.polls@[poll_id as int].votes@.len() == ledger.polls@[poll_id as int].options@.len(),
{
}

/// Vote uniqueness: once a voter holds a receipt for a poll, no further
/// vote by that voter in that poll can be admitted — the gates never come
/// out clear again, and where only the receipt stands in the way the
/// failure is exactly `AlreadyVoted`. Together with `vote`'s contract
/// (a rejected vote leaves the ledger untouched, an accepted vote issues
/// the blocking receipt), at most one vote per (poll, voter) pair ever
/// succeeds.
pub proof fn lemma_vote_unique(
    ledger: Ledger,
    poll_id: u64,
    option_index: u8,
    voter: Identity,
    now: i64,
)
    requires
        ledger.has_voted(poll_id, voter),
    ensures
        vote_check(ledger, poll_id, option_index, voter, now) is Some,
        (poll_id < ledger.polls@.len() && ledger.polls@[poll_id as int].is_active
            && ledger.polls@[poll_id as int].start_time <= now
            && now <= ledger.polls@[poll_id as int].end_time && option_index
            < ledger.polls@[poll_id as int].options@.len()) ==> vote_check(
            ledger,
            poll_id,
            option_index,
            voter,
            now,
        ) == Some(VotingError::AlreadyVoted),
{
}

/// Monotonic identifiers: in a well-formed ledger the polls carry exactly
/// the identifiers `0, 1, ..., count - 1`, in order, with no gap and no
/// repeat; the counter equals the number of polls created so far.
pub proof fn lemma_monotonic_ids(ledger: Ledger)
    requires
        ledger.wf(),
    ensures
        ledger.polls@.len() == ledger.counter.count,
        forall|i: int|
            0 <= i < ledger.polls@.len() ==> (#[trigger] ledger.polls@[i]).poll_id == i,
{
}

/// Time gating: for an active poll with a valid option and a voter without
/// a receipt, a vote before the window fails with `PollNotStarted`, a vote
/// after it fails with `PollEnded`, and a vote inside the window — both
/// bounds included — is admitted.
pub proof fn lemma_time_gating(
    ledger: Ledger,
    poll_id: u64,
    option_index: u8,
    voter: Identity,
    now: i64,
)
    requires
        poll_id < ledger.polls@.len(),
        ledger.polls@[poll_id as int].is_active,
    ensures
        now < ledger.polls@[poll_id as int].start_time ==> vote_check(
            ledger,
            poll_id,
            option_index,
            voter,
            now,
        ) == Some(VotingError::PollNotStarted),
        (ledger.polls@[poll_id as int].start_time <= now && now
            > ledger.polls@[poll_id as int].end_time) ==> vote_check(
            ledger,
            poll_id,
            option_index,
            voter,
            now,
        ) == Some(VotingError::PollEnded),
        (ledger.polls@[poll_id as int].start_time <= now
            && now <= ledger.polls@[poll_id as int].end_time && option_index
            < ledger.polls@[poll_id as int].options@.len() && !ledger.has_voted(poll_id, voter))
            ==> vote_check(ledger, poll_id, option_index, voter, now) is None,
{
}

/// Closure authorization: only the creator's request passes the closure
/// gate; anyone else is refused with `UnauthorizedClose`, and `close_poll`'s
/// contract then leaves the ledger — the active flag included — untouched.
pub proof fn lemma_closure_authorization(ledger: Ledger, poll_id: u64, requester: Identity)
    requires
        poll_id < ledger.polls@.len(),
    ensures
        requester != ledger.polls@[poll_id as int].creator ==> close_check(
            ledger,
            poll_id,
            requester,
        ) == Some(VotingError::UnauthorizedClose),
        requester == ledger.polls@[poll_id as int].creator ==> close_check(
            ledger,
            poll_id,
            requester,
        ) is None,
{
}

/// A closed poll admits no vote: whatever the time, the option, or the
/// voter, the vote gates of an inactive poll fail with `PollNotActive`.
pub proof fn lemma_closed_poll_rejects_votes(
    ledger: Ledger,
    poll_id: u64,
    option_index: u8,
    voter: Identity,
    now: i64,
)
    requires
        poll_id < ledger.polls@.len(),
        !ledger.polls@[poll_id as int].is_active,
    ensures
        vote_check(ledger, poll_id, option_index, voter, now) == Some(VotingError::PollNotActive),
{
}

} // verus!
