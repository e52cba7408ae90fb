//! Binary search for the oldest height whose block a node can still serve.
//!
//! A node that was synced from a snapshot, or that prunes its history, holds
//! every block from some height up to the tip and none below. The search
//! finds that height by asking for single blocks. The asking is done by the
//! caller: [`Locator::probe`] names the height to ask for, and
//! [`Locator::answer`] takes what the node said.

use vstd::prelude::*;

verus! {

/// What a node said when asked for the block at one height.
#[derive(Clone, Copy, Debug, PartialEq, Eq, Structural)]
pub enum BlockReport {
    /// The node sent the block.
    Present,
    /// The node answered that it has no such block.
    Absent,
    /// The node did not answer, or answered with an error.
    Failed,
}

impl BlockReport {
    /// Whether the search takes the block to be there. A request that failed
    /// is not asked again: the block counts as not there.
    pub open spec fn counts_as_present(self) -> bool {
        self == BlockReport::Present
    }
}

/// The interval that a search still has to narrow. The block at `high` is
/// taken to be there, and those above `low` and below `high` are unknown.
#[derive(Clone, Copy, Debug, PartialEq, Eq, Structural)]
pub struct Locator {
    pub low: u64,
    pub high: u64,
}

impl Locator {
    pub open spec fn wf(self) -> bool {
        self.low < self.high
    }

    /// The height that the next query asks for.
    pub open spec fn midpoint(self) -> u64 {
        (self.low + (self.high - self.low) / 2) as u64
    }

    /// No height is left between the two bounds.
    pub open spec fn settled(self) -> bool {
        self.high - self.low <= 1
    }

    /// The interval after the node has said whether it holds the block at the
    /// midpoint: below it where it does, above it where it does not.
    pub open spec fn narrowed(self, present: bool) -> Locator {
        if present {
            Locator { low: self.low, high: self.midpoint() }
        } else {
            Locator { low: self.midpoint(), high: self.high }
        }
    }

    /// The height that the search ends on when the node holds exactly the
    /// blocks of which `present` is true.
    pub open spec fn outcome(self, present: spec_fn(u64) -> bool) -> u64
        decreases self.high - self.low,
    {
        if self.high - self.low <= 1 {
            (self.low + 1) as u64
        } else {
            self.narrowed(present(self.midpoint())).outcome(present)
        }
    }

    /// Starts a search above `low`, which need not be there, and up to
    /// `high`, the tip of the chain.
    pub fn new(low: u64, high: u64) -> (s: Locator)
        requires
            low < high,
        ensures
            s.wf(),
            s.low == low,
            s.high == high,
    {
        Locator { low, high }
    }

    /// The height to ask the node for, or `None` once the search is settled.
    pub fn probe(&self) -> (r: Option<u64>)
        requires
            self.wf(),
        ensures
            r is None <==> self.settled(),
            r matches Some(mid) ==> mid == self.midpoint() && self.low < mid < self.high,
    {
        if self.high - self.low <= 1 {
            None
        } else {
            Some(self.low + (self.high - self.low) / 2)
        }
    }

    /// Narrows the interval by the node's answer for the height that
    /// [`Locator::probe`] named. Each answer leaves less to search.
    pub fn answer(self, report: BlockReport) -> (next: Locator)
        requires
            self.wf(),
            !self.settled(),
        ensures
            next.wf(),
            next == self.narrowed(report.counts_as_present()),
            next.high - next.low < self.high - self.low,
    {
        let mid: u64 = self.low + (self.high - self.low) / 2;
        match report {
            BlockReport::Present => Locator { low: self.low, high: mid },
            _ => Locator { low: mid, high: self.high },
        }
    }

    /// The height found: the one above the lower bound.
    pub fn result(&self) -> (height: u64)
        requires
            self.wf(),
            self.settled(),
        ensures
            height == self.low + 1,
            height == self.high,
            forall|present: spec_fn(u64) -> bool| height == #[trigger] self.outcome(present),
    {
        self.low + 1
    }
}

/// Once a block is there, so is every block above it.
pub open spec fn keeps_all_above(present: spec_fn(u64) -> bool) -> bool {
    forall|a: u64, b: u64| #![trigger present(a), present(b)] a <= b && present(a) ==> present(b)
}

/// Where a node holds every block from some height up to `high` and none
/// below it, the search between `low` and `high` ends on that height: the one
/// lowest height above `low` whose block is there.
pub proof fn lemma_outcome_is_earliest(s: Locator, present: spec_fn(u64) -> bool)
    requires
        s.wf(),
        present(s.high),
        keeps_all_above(present),
    ensures
        s.low < s.outcome(present) <= s.high,
        present(s.outcome(present)),
        forall|h: u64| s.low < h < s.outcome(present) ==> !#[trigger] present(h),
        forall|h: u64| s.low < h <= s.high ==> (#[trigger] present(h) <==> h >= s.outcome(present)),
    decreases s.high - s.low,
{
    if s.high - s.low > 1 {
        let mid = s.midpoint();
        let next = s.narrowed(present(mid));
        lemma_outcome_is_earliest(next, present);
        let r = s.outcome(present);
        assert(r == next.outcome(present));
        if !present(mid) {
            assert forall|h: u64| s.low < h < r implies !#[trigger] present(h) by {
                if h <= mid && present(h) {
                    assert(present(mid));
                }
            }
        }
        assert forall|h: u64| s.low < h <= s.high implies (#[trigger] present(h) <==> h >= r) by {
            if h >= r {
                assert(present(r));
                assert(present(h));
            }
        }
    }
}

/// Each answer keeps the search on its way: whatever the node holds, as long
/// as it told the truth about the midpoint, the narrowed search ends where
/// the search before it would have.
pub proof fn lemma_answer_keeps_outcome(s: Locator, present: spec_fn(u64) -> bool)
    requires
        s.wf(),
        !s.settled(),
    ensures
        s.narrowed(present(s.midpoint())).outcome(present) == s.outcome(present),
{
}

} // verus!
