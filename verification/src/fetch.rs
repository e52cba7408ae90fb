//! The retrying download of one range of heights.
//!
//! The download itself is done by the caller. This module decides what to do
//! next: which range to ask for, when to wait and ask again, and when to
//! stop. The caller performs each action and reports what came of it.

use crate::message::Block;
use vstd::prelude::*;

verus! {

/// How many failed requests in a row end a download.
pub const MAX_RETRIES: u64 = 5;

/// How long to wait before a request is made again, in seconds.
pub const RETRY_DELAY_SECS: u64 = 1;

/// How long a single request may take, in seconds.
pub const REQUEST_TIMEOUT_SECS: u64 = 10;

/// Where a download stands.
#[derive(Clone, Copy, Debug, PartialEq, Eq, Structural)]
pub enum FetchStatus {
    /// More is to be asked for.
    Running,
    /// The range is covered, or the node had nothing more to give.
    Finished,
    /// Too many requests failed in a row.
    GaveUp,
}

/// What the caller is to do next.
#[derive(Clone, Copy, Debug, PartialEq, Eq, Structural)]
pub enum FetchAction {
    /// Ask for the blocks from `start` up to, but without, `end`.
    Request { start: u64, end: u64 },
    /// Wait `delay_secs` seconds, then ask for the same range again.
    RetryAfter { delay_secs: u64, start: u64, end: u64 },
    /// Do nothing more.
    Stop,
}

/// The download of the heights from a start up to, but without, `end`.
#[derive(Clone, Copy, Debug, PartialEq, Eq, Structural)]
pub struct RangeFetch {
    /// The first height not yet received.
    pub next_start: u64,
    /// The height at which the range ends; it is not part of the range.
    pub end: u64,
    /// The number of requests that have failed since the last one that
    /// succeeded.
    pub failures: u64,
    pub status: FetchStatus,
}

/// The highest height among `blocks`, or zero where there is none.
pub open spec fn highest(blocks: Seq<Block>) -> u64
    decreases blocks.len(),
{
    if blocks.len() == 0 {
        0
    } else if blocks.last().height > highest(blocks.drop_last()) {
        blocks.last().height
    } else {
        highest(blocks.drop_last())
    }
}

/// The height after `height`, or the largest height where there is none.
pub open spec fn height_after(height: u64) -> u64 {
    if height < u64::MAX {
        (height + 1) as u64
    } else {
        u64::MAX
    }
}

/// `highest` is a height of one of the blocks, and none of them is higher.
pub proof fn lemma_highest(blocks: Seq<Block>)
    requires
        blocks.len() > 0,
    ensures
        exists|i: int| 0 <= i < blocks.len() && (#[trigger] blocks[i]).height == highest(blocks),
        forall|i: int| 0 <= i < blocks.len() ==> (#[trigger] blocks[i]).height <= highest(blocks),
    decreases blocks.len(),
{
    let rest = blocks.drop_last();
    if rest.len() > 0 {
        lemma_highest(rest);
        let k = choose|k: int| 0 <= k < rest.len() && (#[trigger] rest[k]).height == highest(rest);
        assert(blocks[k] == rest[k]);
        assert forall|i: int| 0 <= i < blocks.len() implies (#[trigger] blocks[i]).height
            <= highest(blocks) by {
            if i < rest.len() {
                assert(blocks[i] == rest[i]);
            }
        }
        if blocks.last().height > highest(rest) {
            assert(blocks[blocks.len() - 1].height == highest(blocks));
        } else {
            assert(blocks[k].height == highest(blocks));
        }
    } else {
        assert(highest(rest) == 0);
        assert(blocks[0].height == highest(blocks));
    }
}

/// Finds the highest height among `blocks`.
pub fn highest_height(blocks: &Vec<Block>) -> (h: u64)
    ensures
        h == highest(blocks@),
{
    let mut h: u64 = 0;
    let mut i: usize = 0;
    assert(blocks@.take(0) =~= Seq::empty());
    while i < blocks.len()
        invariant
            i <= blocks.len(),
            h == highest(blocks@.take(i as int)),
        decreases blocks.len() - i,
    {
        assert(blocks@.take(i + 1).drop_last() =~= blocks@.take(i as int));
        if blocks[i].height > h {
            h = blocks[i].height;
        }
        i = i + 1;
    }
    assert(blocks@.take(i as int) =~= blocks@);
    h
}

/// An answer without blocks ends a download without an error and without
/// moving it: the first height not yet received stays where it was.
pub proof fn lemma_empty_answer_ends_quietly(fetch: RangeFetch)
    requires
        fetch.wf(),
        fetch.status == FetchStatus::Running,
    ensures
        fetch.after_blocks(Seq::empty()).status == FetchStatus::Finished,
        fetch.after_blocks(Seq::empty()).next_start == fetch.next_start,
        fetch.after_blocks(Seq::empty()).failures == 0,
        fetch.after_blocks(Seq::empty()).pending() == FetchAction::Stop,
{
}

/// An answer whose highest height lies in the range asked for moves the
/// download forward.
pub proof fn lemma_answer_moves_forward(fetch: RangeFetch, blocks: Seq<Block>)
    requires
        fetch.wf(),
        fetch.status == FetchStatus::Running,
        blocks.len() > 0,
        fetch.next_start <= highest(blocks),
    ensures
        fetch.after_blocks(blocks).next_start > fetch.next_start || fetch.after_blocks(
            blocks,
        ).status == FetchStatus::Finished,
        fetch.after_blocks(blocks).status == FetchStatus::Running ==> fetch.after_blocks(
            blocks,
        ).end - fetch.after_blocks(blocks).next_start < fetch.end - fetch.next_start,
{
}

/// A download gives up at the fifth failure in a row and not before.
pub proof fn lemma_gives_up_at_the_limit(fetch: RangeFetch)
    requires
        fetch.wf(),
        fetch.status == FetchStatus::Running,
    ensures
        fetch.after_failure().status == FetchStatus::GaveUp <==> fetch.failures == MAX_RETRIES - 1,
        fetch.after_failure().status != FetchStatus::GaveUp ==> fetch.after_failure().status
            == FetchStatus::Running && fetch.after_failure().failures == fetch.failures + 1,
        fetch.after_failure().next_start == fetch.next_start,
{
}

impl RangeFetch {
    /// A download in progress has heights left to ask for and has not used
    /// up its failures.
    pub open spec fn wf(self) -> bool {
        &&& self.status == FetchStatus::Running ==> self.next_start < self.end && self.failures
            < MAX_RETRIES
        &&& self.status == FetchStatus::GaveUp ==> self.failures == MAX_RETRIES
        &&& self.failures <= MAX_RETRIES
    }

    /// What is to be done when nothing has been reported yet, or again.
    pub open spec fn pending(self) -> FetchAction {
        match self.status {
            FetchStatus::Running => if self.failures == 0 {
                FetchAction::Request { start: self.next_start, end: self.end }
            } else {
                FetchAction::RetryAfter {
                    delay_secs: RETRY_DELAY_SECS,
                    start: self.next_start,
                    end: self.end,
                }
            },
            _ => FetchAction::Stop,
        }
    }

    /// The state after a request has failed.
    pub open spec fn after_failure(self) -> RangeFetch {
        if self.status != FetchStatus::Running {
            self
        } else if self.failures + 1 >= MAX_RETRIES {
            RangeFetch { failures: MAX_RETRIES, status: FetchStatus::GaveUp, ..self }
        } else {
            RangeFetch { failures: (self.failures + 1) as u64, ..self }
        }
    }

    /// The state after a request has given `blocks`.
    pub open spec fn after_blocks(self, blocks: Seq<Block>) -> RangeFetch {
        if self.status != FetchStatus::Running {
            self
        } else if blocks.len() == 0 {
            RangeFetch { failures: 0, status: FetchStatus::Finished, ..self }
        } else {
            let next = height_after(highest(blocks));
            RangeFetch {
                next_start: next,
                failures: 0,
                status: if next < self.end {
                    FetchStatus::Running
                } else {
                    FetchStatus::Finished
                },
                ..self
            }
        }
    }

    /// Starts the download of the heights from `start` up to, but without,
    /// `end`. Where that range is empty there is nothing to do.
    pub fn new(start: u64, end: u64) -> (fetch: RangeFetch)
        ensures
            fetch.wf(),
            fetch.next_start == start,
            fetch.end == end,
            fetch.failures == 0,
            fetch.status == if start < end {
                FetchStatus::Running
            } else {
                FetchStatus::Finished
            },
    {
        let status = if start < end {
            FetchStatus::Running
        } else {
            FetchStatus::Finished
        };
        RangeFetch { next_start: start, end, failures: 0, status }
    }

    /// What is to be done now.
    pub fn action(&self) -> (action: FetchAction)
        ensures
            action == self.pending(),
    {
        match self.status {
            FetchStatus::Running => if self.failures == 0 {
                FetchAction::Request { start: self.next_start, end: self.end }
            } else {
                FetchAction::RetryAfter {
                    delay_secs: RETRY_DELAY_SECS,
                    start: self.next_start,
                    end: self.end,
                }
            },
            _ => FetchAction::Stop,
        }
    }

    /// Reports that the request failed. The download waits and asks again,
    /// until [`MAX_RETRIES`] requests in a row have failed: then it gives up.
    pub fn on_failure(&mut self) -> (action: FetchAction)
        requires
            old(self).wf(),
        ensures
            final(self).wf(),
            *final(self) == old(self).after_failure(),
            action == final(self).pending(),
    {
        if let FetchStatus::Running = self.status {
            if self.failures + 1 >= MAX_RETRIES {
                self.failures = MAX_RETRIES;
                self.status = FetchStatus::GaveUp;
            } else {
                self.failures = self.failures + 1;
            }
        }
        self.action()
    }

    /// Reports that the request gave `blocks`. Earlier failures are
    /// forgotten. No blocks at all means that the node has no more: the
    /// download ends where it stands. Otherwise it goes on after the highest
    /// height received, and ends once the range is covered.
    pub fn on_blocks(&mut self, blocks: &Vec<Block>) -> (action: FetchAction)
        requires
            old(self).wf(),
        ensures
            final(self).wf(),
            *final(self) == old(self).after_blocks(blocks@),
            action == final(self).pending(),
    {
        if let FetchStatus::Running = self.status {
            self.failures = 0;
            if blocks.len() == 0 {
                self.status = FetchStatus::Finished;
            } else {
                let top: u64 = highest_height(blocks);
                let next: u64 = if top < u64::MAX {
                    top + 1
                } else {
                    u64::MAX
                };
                self.next_start = next;
                if next >= self.end {
                    self.status = FetchStatus::Finished;
                }
            }
        }
        self.action()
    }

    /// Whether the download has come to an end, one way or the other.
    pub fn is_done(&self) -> (done: bool)
        ensures
            done == (self.status != FetchStatus::Running),
    {
        match self.status {
            FetchStatus::Running => false,
            _ => true,
        }
    }
}

} // verus!
