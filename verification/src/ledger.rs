//! The ledger and its three operations: poll creation, vote casting, and
//! poll closure.
//!
//! Each operation's validation gates are stated once, as a spec function
//! that returns the first failing gate's error (or nothing when every gate
//! passes), and each operation's contract says exactly which error comes
//! back on which inputs and exactly how the ledger changes on success.

use vstd::prelude::*;
use vstd::string::StrSliceExecFns;

use crate::errors::VotingError;
use crate::state::{
    lemma_tally_sum_bounds, lemma_tally_sum_update, lemma_tally_sum_zeros, tally_sum, Identity,
    Poll, PollCounter, VoteRecord,
};

verus! {

/// The whole persisted state: the registry counter, every poll created so
/// far (the poll with identifier `i` at index `i`), and every vote receipt
/// ever issued.
#[derive(Debug)]
pub struct Ledger {
    pub counter: PollCounter,
    pub polls: Vec<Poll>,
    pub receipts: Vec<VoteRecord>,
}

/// The validation gates of poll creation, in their mandatory order; the
/// result is the error of the first failing gate, or nothing when the
/// request is admissible.
pub open spec fn create_check(
    title: Seq<char>,
    description: Seq<char>,
    options: Seq<String>,
    start_time: i64,
    end_time: i64,
    now: i64,
) -> Option<VotingError> {
    if title.len() > Poll::MAX_TITLE_LENGTH {
        Some(VotingError::TitleTooLong)
    } else if description.len() > Poll::MAX_DESCRIPTION_LENGTH {
        Some(VotingError::DescriptionTooLong)
    } else if options.len() < 2 {
        Some(VotingError::NotEnoughOptions)
    } else if options.len() > Poll::MAX_OPTIONS {
        Some(VotingError::TooManyOptions)
    } else if exists|i: int|
        0 <= i < options.len() && (#[trigger] options[i])@.len() > Poll::MAX_OPTION_LENGTH {
        Some(VotingError::OptionTooLong)
    } else if start_time >= end_time {
        Some(VotingError::InvalidTimeRange)
    } else if end_time <= now {
        Some(VotingError::InvalidTimeRange)
    } else {
        None
    }
}

/// The validation gates of vote casting, in their mandatory order. A poll
/// identifier with no poll behind it fails the same gate as a closed poll:
/// there is nothing active to vote in.
pub open spec fn vote_check(
    ledger: Ledger,
    poll_id: u64,
    option_index: u8,
    voter: Identity,
    now: i64,
) -> Option<VotingError> {
    if poll_id >= ledger.polls@.len() || !ledger.polls@[poll_id as int].is_active {
        Some(VotingError::PollNotActive)
    } else if now < ledger.polls@[poll_id as int].start_time {
        Some(VotingError::PollNotStarted)
    } else if now > ledger.polls@[poll_id as int].end_time {
        Some(VotingError::PollEnded)
    } else if option_index >= ledger.polls@[poll_id as int].options@.len() {
        Some(VotingError::InvalidOptionIndex)
    } else if ledger.has_voted(poll_id, voter) {
        Some(VotingError::AlreadyVoted)
    } else {
        None
    }
}

/// The validation gates of poll closure: the poll must exist and the
/// requester must be its creator. Closing an already-closed poll passes:
/// closure is idempotent.
pub open spec fn close_check(ledger: Ledger, poll_id: u64, requester: Identity) -> Option<
    VotingError,
> {
    if poll_id >= ledger.polls@.len() {
        Some(VotingError::PollNotActive)
    } else if ledger.polls@[poll_id as int].creator != requester {
        Some(VotingError::UnauthorizedClose)
    } else {
        None
    }
}

impl Ledger {
    /// Well-formedness of the whole ledger: the counter counts the polls,
    /// the poll at index `i` carries identifier `i` and is itself
    /// well-formed, and every receipt points into an existing poll, at a
    /// valid option, with no two receipts for the same (poll, voter) pair.
    pub open spec fn wf(self) -> bool {
        &&& self.polls@.len() == self.counter.count
        &&& forall|i: int| 0 <= i < self.polls@.len() ==> (#[trigger] self.polls@[i]).wf()
        &&& forall|i: int| 0 <= i < self.polls@.len() ==> (#[trigger] self.polls@[i]).poll_id == i
        &&& forall|i: int|
            0 <= i < self.receipts@.len() ==> (#[trigger] self.receipts@[i]).poll_id
                < self.polls@.len()
        &&& forall|i: int|
            0 <= i < self.receipts@.len() ==> (#[trigger] self.receipts@[i]).option_index
                < self.polls@[self.receipts@[i].poll_id as int].options@.len()
        &&& forall|i: int, j: int|
            0 <= i < j < self.receipts@.len() ==> !((#[trigger] self.receipts@[i]).poll_id == (
            #[trigger] self.receipts@[j]).poll_id && self.receipts@[i].voter
                == self.receipts@[j].voter)
    }

    /// Whether a receipt already exists for this (poll, voter) pair.
    pub open spec fn has_voted(self, poll_id: u64, voter: Identity) -> bool {
        exists|i: int|
            0 <= i < self.receipts@.len() && (#[trigger] self.receipts@[i]).poll_id == poll_id
                && self.receipts@[i].voter == voter
    }

    /// An empty ledger: no polls, no receipts, counter at zero.
    pub fn new() -> (ledger: Ledger)
        ensures
            ledger.wf(),
            ledger.counter.count == 0,
            ledger.polls@.len() == 0,
            ledger.receipts@.len() == 0,
    {
        Ledger { counter: PollCounter { count: 0 }, polls: Vec::new(), receipts: Vec::new() }
    }

    /// Create a new poll from the given metadata, or fail without touching
    /// the ledger. On success the new poll takes the counter's value as its
    /// identifier, the counter advances by one, and the poll starts active
    /// with an all-zero tally.
    #[verifier::loop_isolation(false)]
    pub fn initialize_poll(
        &mut self,
        title: String,
        description: String,
        options: Vec<String>,
        start_time: i64,
        end_time: i64,
        creator: Identity,
        now: i64,
    ) -> (result: Result<u64, VotingError>)
        requires
            old(self).wf(),
            create_check(title@, description@, options@, start_time, end_time, now) is None
                ==> old(self).counter.count < u64::MAX,
        ensures
            final(self).wf(),
            match result {
                Err(e) => {
                    &&& create_check(title@, description@, options@, start_time, end_time, now)
                        == Some(e)
                    &&& *final(self) == *old(self)
                },
                Ok(id) => {
                    &&& create_check(title@, description@, options@, start_time, end_time, now)
                        is None
                    &&& id == old(self).counter.count
                    &&& final(self).counter.count == old(self).counter.count + 1
                    &&& final(self).receipts@ == old(self).receipts@
                    &&& final(self).polls@.len() == old(self).polls@.len() + 1
                    &&& forall|i: int|
                        0 <= i < old(self).polls@.len() ==> final(self).polls@[i] == old(
                            self,
                        ).polls@[i]
                    &&& ({
                        let p = final(self).polls@.last();
                        &&& p.poll_id == id
                        &&& p.creator == creator
                        &&& p.title == title
                        &&& p.description == description
                        &&& p.options == options
                        &&& p.votes@.len() == options@.len()
                        &&& forall|i: int| 0 <= i < options@.len() ==> p.votes@[i] == 0
                        &&& p.start_time == start_time
                        &&& p.end_time == end_time
                        &&& p.is_active
                        &&& p.total_votes == 0
                    })
                },
            },
    {
        if title.as_str().unicode_len() > Poll::MAX_TITLE_LENGTH {
            return Err(VotingError::TitleTooLong);
        }
        if description.as_str().unicode_len() > Poll::MAX_DESCRIPTION_LENGTH {
            return Err(VotingError::DescriptionTooLong);
        }
        if options.len() < 2 {
            return Err(VotingError::NotEnoughOptions);
        }
        if options.len() > Poll::MAX_OPTIONS {
            return Err(VotingError::TooManyOptions);
        }
        let mut k: usize = 0;
        while k < options.len()
            invariant
                k <= options@.len(),
                forall|i: int|
                    0 <= i < k ==> (#[trigger] options@[i])@.len() <= Poll::MAX_OPTION_LENGTH,
            decreases options@.len() - k,
        {
            if options[k].as_str().unicode_len() > Poll::MAX_OPTION_LENGTH {
                return Err(VotingError::OptionTooLong);
            }
            k = k + 1;
        }
        if start_time >= end_time {
            return Err(VotingError::InvalidTimeRange);
        }
        if end_time <= now {
            return Err(VotingError::InvalidTimeRange);
        }
        let id: u64 = self.counter.count;
        let votes = zero_tally(options.len());
        proof {
            lemma_tally_sum_zeros(votes@);
        }
        let poll = Poll {
            poll_id: id,
            creator,
            title,
            description,
            options,
            votes,
            start_time,
            end_time,
            is_active: true,
            total_votes: 0,
        };
        self.polls.push(poll);
        self.counter.count = id + 1;
        Ok(id)
    }

    /// Cast one vote: raise the chosen option's count and the poll's total
    /// by one and issue the voter's receipt, or fail without touching the
    /// ledger. The receipt issued here is what makes a second vote by the
    /// same voter in the same poll fail.
    pub fn vote(&mut self, poll_id: u64, option_index: u8, voter: Identity, now: i64) -> (result:
        Result<(), VotingError>)
        requires
            old(self).wf(),
            vote_check(*old(self), poll_id, option_index, voter, now) is None ==> old(
                self,
            ).polls@[poll_id as int].total_votes < u64::MAX,
        ensures
            final(self).wf(),
            match result {
                Err(e) => {
                    &&& vote_check(*old(self), poll_id, option_index, voter, now) == Some(e)
                    &&& *final(self) == *old(self)
                },
                Ok(u) => {
                    &&& vote_check(*old(self), poll_id, option_index, voter, now) is None
                    &&& final(self).counter == old(self).counter
                    &&& final(self).polls@.len() == old(self).polls@.len()
                    &&& forall|i: int|
                        0 <= i < old(self).polls@.len() && i != poll_id ==> final(self).polls@[i]
                            == old(self).polls@[i]
                    &&& ({
                        let before = old(self).polls@[poll_id as int];
                        let after = final(self).polls@[poll_id as int];
                        &&& after.votes@ == before.votes@.update(
                            option_index as int,
                            (before.votes@[option_index as int] + 1) as u64,
                        )
                        &&& after.total_votes == before.total_votes + 1
                        &&& after.poll_id == before.poll_id
                        &&& after.creator == before.creator
                        &&& after.title == before.title
                        &&& after.description == before.description
                        &&& after.options == before.options
                        &&& after.start_time == before.start_time
                        &&& after.end_time == before.end_time
                        &&& after.is_active == before.is_active
                    })
                    &&& ({
                        let receipt = VoteRecord { voter, poll_id, option_index, timestamp: now };
                        final(self).receipts@ == old(self).receipts@.push(receipt)
                    })
                    &&& final(self).has_voted(poll_id, voter)
                },
            },
    {
        if poll_id >= self.polls.len() as u64 {
            return Err(VotingError::PollNotActive);
        }
        let pidx = poll_id as usize;
        if !self.polls[pidx].is_active {
            return Err(VotingError::PollNotActive);
        }
        if now < self.polls[pidx].start_time {
            return Err(VotingError::PollNotStarted);
        }
        if now > self.polls[pidx].end_time {
            return Err(VotingError::PollEnded);
        }
        let oidx = option_index as usize;
        if oidx >= self.polls[pidx].options.len() {
            return Err(VotingError::InvalidOptionIndex);
        }
        if self.find_receipt(poll_id, voter) {
            return Err(VotingError::AlreadyVoted);
        }
        proof {
            lemma_tally_sum_bounds(self.polls@[pidx as int].votes@, oidx as int);
        }
        let ghost votes_before = self.polls@[pidx as int].votes@;
        let poll = &mut self.polls[pidx];
        let cur: u64 = poll.votes[oidx];
        poll.votes[oidx] = cur + 1;
        poll.total_votes = poll.total_votes + 1;
        proof {
            lemma_tally_sum_update(votes_before, oidx as int, (cur + 1) as u64);
        }
        let receipt = VoteRecord { voter, poll_id, option_index, timestamp: now };
        self.receipts.push(receipt);
        proof {
            assert(self.receipts@[self.receipts@.len() - 1] == receipt);
        }
        Ok(())
    }

    /// Close a poll: only its creator may, and afterwards the poll is
    /// inactive with everything else unchanged. Closing an already-closed
    /// poll succeeds and changes nothing.
    pub fn close_poll(&mut self, poll_id: u64, requester: Identity) -> (result: Result<
        (),
        VotingError,
    >)
        requires
            old(self).wf(),
        ensures
            final(self).wf(),
            match result {
                Err(e) => {
                    &&& close_check(*old(self), poll_id, requester) == Some(e)
                    &&& *final(self) == *old(self)
                },
                Ok(u) => {
                    &&& close_check(*old(self), poll_id, requester) is None
                    &&& final(self).counter == old(self).counter
                    &&& final(self).receipts@ == old(self).receipts@
                    &&& final(self).polls@.len() == old(self).polls@.len()
                    &&& forall|i: int|
                        0 <= i < old(self).polls@.len() && i != poll_id ==> final(self).polls@[i]
                            == old(self).polls@[i]
                    &&& ({
                        let before = old(self).polls@[poll_id as int];
                        let after = final(self).polls@[poll_id as int];
                        &&& !after.is_active
                        &&& after.poll_id == before.poll_id
                        &&& after.creator == before.creator
                        &&& after.title == before.title
                        &&& after.description == before.description
                        &&& after.options == before.options
                        &&& after.votes == before.votes
                        &&& after.start_time == before.start_time
                        &&& after.end_time == before.end_time
                        &&& after.total_votes == before.total_votes
                    })
                },
            },
    {
        if poll_id >= self.polls.len() as u64 {
            return Err(VotingError::PollNotActive);
        }
        let pidx = poll_id as usize;
        if self.polls[pidx].creator != requester {
            return Err(VotingError::UnauthorizedClose);
        }
        let poll = &mut self.polls[pidx];
        poll.is_active = false;
        Ok(())
    }

    /// How many polls exist; also the identifier the next poll will get.
    pub fn poll_count(&self) -> (count: u64)
        ensures
            count == self.counter.count,
    {
        self.counter.count
    }

    /// Read access to a poll's current state; anyone may read.
    pub fn get_poll(&self, poll_id: u64) -> (poll: Option<&Poll>)
        ensures
            match poll {
                Some(p) => poll_id < self.polls@.len() && *p == self.polls@[poll_id as int],
                None => poll_id >= self.polls@.len(),
            },
    {
        if poll_id >= self.polls.len() as u64 {
            None
        } else {
            Some(&self.polls[poll_id as usize])
        }
    }

    /// Whether a voter already holds a receipt for this poll; anyone may
    /// read.
    pub fn find_receipt(&self, poll_id: u64, voter: Identity) -> (found: bool)
        ensures
            found == self.has_voted(poll_id, voter),
    {
        let mut k: usize = 0;
        while k < self.receipts.len()
            invariant
                k <= self.receipts@.len(),
                forall|i: int|
                    0 <= i < k ==> !((#[trigger] self.receipts@[i]).poll_id == poll_id
                        && self.receipts@[i].voter == voter),
            decreases self.receipts@.len() - k,
        {
            let r = &self.receipts[k];
            if r.poll_id == poll_id && r.voter == voter {
                return true;
            }
            k = k + 1;
        }
        false
    }
}

/// A fresh tally: one zero per option.
fn zero_tally(num_options: usize) -> (votes: Vec<u64>)
    ensures
        votes@.len() == num_options,
        forall|i: int| 0 <= i < num_options ==> votes@[i] == 0,
{
    let mut votes: Vec<u64> = Vec::new();
    let mut k: usize = 0;
    while k < num_options
        invariant
            votes@.len() == k,
            k <= num_options,
            forall|i: int| 0 <= i < k ==> votes@[i] == 0,
        decreases num_options - k,
    {
        votes.push(0);
        k = k + 1;
    }
    votes
}

} // verus!
