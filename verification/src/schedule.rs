//! Cutting a range of heights into batches and handing them out a window at
//! a time.
//!
//! A batch covers at most [`BATCH_SIZE`] heights. A window holds at most
//! [`EXECUTE_SIZE`] batches: those are downloaded side by side, and the next
//! window is handed out only when they are all done.

use vstd::prelude::*;

verus! {

/// The largest number of heights in one batch.
pub const BATCH_SIZE: u64 = 500;

/// The largest number of batches that are downloaded at once.
pub const EXECUTE_SIZE: usize = 10;

/// The heights from `start` up to, but without, `end`.
#[derive(Clone, Copy, Debug, PartialEq, Eq, Structural)]
pub struct SubRange {
    pub start: u64,
    pub end: u64,
}

/// The batches of the heights from `start` up to, but without, `end`, lowest
/// first: each but the last covers [`BATCH_SIZE`] heights, and the last
/// covers what is left.
pub open spec fn batches(start: u64, end: u64) -> Seq<SubRange>
    decreases end - start,
{
    if start >= end {
        Seq::empty()
    } else if end - start > BATCH_SIZE {
        seq![SubRange { start, end: (start + BATCH_SIZE) as u64 }] + batches(
            (start + BATCH_SIZE) as u64,
            end,
        )
    } else {
        seq![SubRange { start, end }]
    }
}

/// The batches of a range tile it: the first starts where the range starts,
/// each starts where the one before it ends, the last ends where the range
/// ends, and none is empty or longer than [`BATCH_SIZE`]. Only the last may
/// be shorter.
pub proof fn lemma_batches_tile(start: u64, end: u64)
    requires
        start < end,
    ensures
        batches(start, end).len() >= 1,
        batches(start, end).first().start == start,
        batches(start, end).last().end == end,
        forall|i: int|
            0 <= i < batches(start, end).len() ==> {
                let b = #[trigger] batches(start, end)[i];
                b.start < b.end && b.end - b.start <= BATCH_SIZE
            },
        forall|i: int|
            0 <= i < batches(start, end).len() - 1 ==> {
                let b = #[trigger] batches(start, end)[i];
                b.end - b.start == BATCH_SIZE && b.end == batches(start, end)[i + 1].start
            },
    decreases end - start,
{
    if end - start > BATCH_SIZE {
        let mid = (start + BATCH_SIZE) as u64;
        lemma_batches_tile(mid, end);
        let rest = batches(mid, end);
        let all = batches(start, end);
        assert(all.len() == rest.len() + 1);
        assert forall|i: int| 0 <= i < all.len() implies {
            let b = #[trigger] all[i];
            b.start < b.end && b.end - b.start <= BATCH_SIZE
        } by {
            if i > 0 {
                assert(all[i] == rest[i - 1]);
            }
        }
        assert forall|i: int| 0 <= i < all.len() - 1 implies {
            let b = #[trigger] all[i];
            b.end - b.start == BATCH_SIZE && b.end == all[i + 1].start
        } by {
            assert(all[i + 1] == rest[i]);
            if i > 0 {
                assert(all[i] == rest[i - 1]);
            }
        }
        assert(all.last() == rest.last());
    }
}

/// The number of batches of a range: its length divided by [`BATCH_SIZE`],
/// rounded up.
pub proof fn lemma_batches_len(start: u64, end: u64)
    requires
        start <= end,
    ensures
        batches(start, end).len() == (end - start + BATCH_SIZE - 1) / (BATCH_SIZE as int),
    decreases end - start,
{
    if end - start > BATCH_SIZE {
        lemma_batches_len((start + BATCH_SIZE) as u64, end);
    }
}

/// What is left to hand out of a range.
#[derive(Clone, Copy, Debug, PartialEq, Eq, Structural)]
pub struct Schedule {
    /// The first height of which no batch has been handed out.
    pub next: u64,
    /// The height at which the range ends; it is not part of the range.
    pub end: u64,
}

impl Schedule {
    /// The batches that are still to be handed out.
    pub open spec fn remaining(self) -> Seq<SubRange> {
        batches(self.next, self.end)
    }

    /// The schedule of the heights from `start` up to, but without, `end`.
    pub fn new(start: u64, end: u64) -> (s: Schedule)
        ensures
            s.next == start,
            s.end == end,
    {
        Schedule { next: start, end }
    }

    /// Whether every batch has been handed out.
    pub fn is_done(&self) -> (done: bool)
        ensures
            done == (self.remaining().len() == 0),
    {
        self.next >= self.end
    }

    /// Hands out the next window: the first [`EXECUTE_SIZE`] of the batches
    /// that remain, or all of them where fewer remain. An empty window means
    /// that the range is covered.
    pub fn next_window(&mut self) -> (window: Vec<SubRange>)
        ensures
            window@ + final(self).remaining() == old(self).remaining(),
            window.len() == if old(self).remaining().len() < EXECUTE_SIZE {
                old(self).remaining().len()
            } else {
                EXECUTE_SIZE as nat
            },
            final(self).end == old(self).end,
    {
        let mut window: Vec<SubRange> = Vec::new();
        let end: u64 = self.end;
        let mut pos: u64 = self.next;
        assert(window@ + batches(pos, end) =~= batches(pos, end));
        while window.len() < EXECUTE_SIZE && pos < end
            invariant
                end == old(self).end,
                window.len() <= EXECUTE_SIZE,
                window@ + batches(pos, end) == batches(old(self).next, end),
            decreases end - pos,
        {
            let ghost before = window@;
            let ghost rest = batches(pos, end);
            let stop: u64 = if end - pos > BATCH_SIZE {
                pos + BATCH_SIZE
            } else {
                end
            };
            window.push(SubRange { start: pos, end: stop });
            assert(rest =~= seq![SubRange { start: pos, end: stop }] + batches(stop, end));
            assert(window@ + batches(stop, end) =~= before + rest);
            pos = stop;
        }
        self.next = pos;
        window
    }
}

} // verus!
