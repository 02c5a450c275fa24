//! The records of the ledger: polls, vote receipts, and the poll counter,
//! together with the well-formedness conditions that every stored record
//! satisfies.

use vstd::prelude::*;

verus! {

/// A verified caller identity. The surrounding system authenticates the
/// caller before an operation runs; the ledger only compares identities
/// for equality.
#[derive(Clone, Copy, Debug, PartialEq, Eq, Structural)]
pub struct Identity {
    pub key: u64,
}

/// The sum of a sequence of vote counts, as an unbounded integer.
pub open spec fn tally_sum(s: Seq<u64>) -> int
    decreases s.len(),
{
    if s.len() == 0 {
        0
    } else {
        tally_sum(s.drop_last()) + s.last()
    }
}

/// A sequence of zeros sums to zero.
pub proof fn lemma_tally_sum_zeros(s: Seq<u64>)
    requires
        forall|i: int| 0 <= i < s.len() ==> s[i] == 0,
    ensures
        tally_sum(s) == 0,
    decreases s.len(),
{
    if s.len() > 0 {
        lemma_tally_sum_zeros(s.drop_last());
    }
}

/// Every entry of a tally lies between zero and the whole sum.
pub proof fn lemma_tally_sum_bounds(s: Seq<u64>, i: int)
    requires
        0 <= i < s.len(),
    ensures
        0 <= s[i] <= tally_sum(s),
    decreases s.len(),
{
    if i == s.len() - 1 {
        lemma_tally_sum_nonneg(s.drop_last());
    } else {
        lemma_tally_sum_bounds(s.drop_last(), i);
    }
}

/// A sum of unsigned counts is never negative.
pub proof fn lemma_tally_sum_nonneg(s: Seq<u64>)
    ensures
        tally_sum(s) >= 0,
    decreases s.len(),
{
    if s.len() > 0 {
        lemma_tally_sum_nonneg(s.drop_last());
    }
}

/// Raising one entry changes the sum by exactly the same amount.
pub proof fn lemma_tally_sum_update(s: Seq<u64>, i: int, v: u64)
    requires
        0 <= i < s.len(),
    ensures
        tally_sum(s.update(i, v)) == tally_sum(s) - s[i] + v,
    decreases s.len(),
{
    let t = s.update(i, v);
    if i == s.len() - 1 {
        assert(t.drop_last() =~= s.drop_last());
    } else {
        assert(t.drop_last() =~= s.drop_last().update(i, v));
        lemma_tally_sum_update(s.drop_last(), i, v);
    }
}

/// One poll: immutable metadata, the voting time window, and the tally
/// that accumulates accepted votes while the poll is active.
#[derive(Debug)]
pub struct Poll {
    /// Unique identifier, assigned from the counter at creation.
    pub poll_id: u64,
    /// The creator; the sole authority for closing the poll.
    pub creator: Identity,
    pub title: String,
    pub description: String,
    /// The choices, in canonical index order.
    pub options: Vec<String>,
    /// Vote counts, index-aligned with `options`.
    pub votes: Vec<u64>,
    /// First instant (inclusive) at which votes are admitted.
    pub start_time: i64,
    /// Last instant (inclusive) at which votes are admitted.
    pub end_time: i64,
    /// True until the creator closes the poll; never becomes true again.
    pub is_active: bool,
    /// Running total of accepted votes; always the sum of `votes`.
    pub total_votes: u64,
}

impl Poll {
    pub const MAX_TITLE_LENGTH: usize = 100;

    pub const MAX_DESCRIPTION_LENGTH: usize = 500;

    pub const MAX_OPTION_LENGTH: usize = 50;

    pub const MAX_OPTIONS: usize = 10;

    /// Well-formedness of a stored poll: the bounds checked at creation,
    /// a tally aligned with the options, and a total equal to the tally's
    /// sum.
    pub open spec fn wf(self) -> bool {
        &&& self.title@.len() <= Poll::MAX_TITLE_LENGTH
        &&& self.description@.len() <= Poll::MAX_DESCRIPTION_LENGTH
        &&& 2 <= self.options@.len() <= Poll::MAX_OPTIONS
        &&& forall|i: int|
            0 <= i < self.options@.len() ==> (#[trigger] self.options@[i])@.len()
                <= Poll::MAX_OPTION_LENGTH
        &&& self.votes@.len() == self.options@.len()
        &&& self.total_votes == tally_sum(self.votes@)
        &&& self.start_time < self.end_time
    }

    /// The exact storage size, in bytes, that the record store must
    /// reserve for a poll with `num_options` options: a fixed overhead,
    /// full capacity for title and description, and one option slot plus
    /// one tally entry per option.
    pub fn space(num_options: usize) -> (size: usize)
        requires
            num_options <= Poll::MAX_OPTIONS,
        ensures
            size == 8 + 8 + 32 + (4 + Poll::MAX_TITLE_LENGTH) + (4 + Poll::MAX_DESCRIPTION_LENGTH)
                + (4 + num_options * (4 + Poll::MAX_OPTION_LENGTH)) + (4 + num_options * 8) + 8 + 8
                + 1 + 8 + 1,
    {
        8  // record discriminator
        + 8  // poll_id
        + 32  // creator
        + 4 + Poll::MAX_TITLE_LENGTH  // title
        + 4 + Poll::MAX_DESCRIPTION_LENGTH  // description
        + 4 + (num_options * (4 + Poll::MAX_OPTION_LENGTH))  // options
        + 4 + (num_options * 8)  // votes
        + 8  // start_time
        + 8  // end_time
        + 1  // is_active
        + 8  // total_votes
        + 1  // address-derivation byte kept by the record store
    }
}

/// Immutable proof that one voter cast one vote in one poll. At most one
/// receipt ever exists per (poll, voter) pair: the receipt is the
/// double-vote guard.
#[derive(Clone, Copy, Debug)]
pub struct VoteRecord {
    pub voter: Identity,
    pub poll_id: u64,
    /// Index of the chosen option in the poll's options.
    pub option_index: u8,
    /// The wall-clock time at which the vote was accepted.
    pub timestamp: i64,
}

impl VoteRecord {
    /// The exact storage size, in bytes, of one receipt record.
    pub const SPACE: usize = 8 + 32 + 8 + 1 + 8 + 1;
}

/// The registry counter that assigns sequential poll identifiers.
#[derive(Clone, Copy, Debug)]
pub struct PollCounter {
    /// The identifier the next created poll will receive; also the number
    /// of polls created so far.
    pub count: u64,
}

impl PollCounter {
    /// The exact storage size, in bytes, of the counter record.
    pub const SPACE: usize = 8 + 8 + 1;
}

} // verus!
