//! Running totals of what has been ingested.
//!
//! The totals live for the life of the process and only grow. Each stops at
//! the largest number it can hold.

use vstd::prelude::*;

verus! {

/// `n`, or the largest `u64` where `n` is larger.
pub open spec fn clip(n: int) -> u64
    recommends
        n >= 0,
{
    if n > u64::MAX {
        u64::MAX
    } else {
        n as u64
    }
}

/// A set of counts: of one block, of one batch, or of the whole run.
#[derive(Clone, Copy, Debug, PartialEq, Eq, Structural)]
pub struct Totals {
    /// Blocks read.
    pub blocks: u64,
    /// Transactions that hold a transfer.
    pub transactions: u64,
    /// Messages seen, of whatever type.
    pub msgs: u64,
    /// Transactions that hold a transfer, counted for the transfers.
    pub ibc_msgs: u64,
    /// Payments that decoded and were turned into records.
    pub send_msgs: u64,
}

impl Totals {
    /// Counts of nothing.
    pub open spec fn zero() -> Totals {
        Totals { blocks: 0, transactions: 0, msgs: 0, ibc_msgs: 0, send_msgs: 0 }
    }

    /// The counts of `self` and `other` together.
    pub open spec fn sum(self, other: Totals) -> Totals {
        Totals {
            blocks: clip(self.blocks + other.blocks),
            transactions: clip(self.transactions + other.transactions),
            msgs: clip(self.msgs + other.msgs),
            ibc_msgs: clip(self.ibc_msgs + other.ibc_msgs),
            send_msgs: clip(self.send_msgs + other.send_msgs),
        }
    }

    /// No count of `self` is above that of `other`.
    pub open spec fn at_most(self, other: Totals) -> bool {
        &&& self.blocks <= other.blocks
        &&& self.transactions <= other.transactions
        &&& self.msgs <= other.msgs
        &&& self.ibc_msgs <= other.ibc_msgs
        &&& self.send_msgs <= other.send_msgs
    }

    pub fn new() -> (t: Totals)
        ensures
            t == Totals::zero(),
    {
        Totals { blocks: 0, transactions: 0, msgs: 0, ibc_msgs: 0, send_msgs: 0 }
    }

    /// Adds the counts of `other` to those of `self`.
    pub fn plus(self, other: Totals) -> (t: Totals)
        ensures
            t == self.sum(other),
            self.at_most(t),
            other.at_most(t),
    {
        Totals {
            blocks: self.blocks.saturating_add(other.blocks),
            transactions: self.transactions.saturating_add(other.transactions),
            msgs: self.msgs.saturating_add(other.msgs),
            ibc_msgs: self.ibc_msgs.saturating_add(other.ibc_msgs),
            send_msgs: self.send_msgs.saturating_add(other.send_msgs),
        }
    }
}

/// The totals of a run. Only [`Counters::absorb`] changes them.
#[derive(Debug)]
pub struct Counters {
    blocks: u64,
    transactions: u64,
    msgs: u64,
    ibc_msgs: u64,
    send_msgs: u64,
}

impl View for Counters {
    type V = Totals;

    closed spec fn view(&self) -> Totals {
        Totals {
            blocks: self.blocks,
            transactions: self.transactions,
            msgs: self.msgs,
            ibc_msgs: self.ibc_msgs,
            send_msgs: self.send_msgs,
        }
    }
}

impl Counters {
    /// Counters that have counted nothing yet.
    pub fn new() -> (c: Counters)
        ensures
            c@ == Totals::zero(),
    {
        Counters { blocks: 0, transactions: 0, msgs: 0, ibc_msgs: 0, send_msgs: 0 }
    }

    /// The totals as they stand.
    pub fn snapshot(&self) -> (t: Totals)
        ensures
            t == self@,
    {
        Totals {
            blocks: self.blocks,
            transactions: self.transactions,
            msgs: self.msgs,
            ibc_msgs: self.ibc_msgs,
            send_msgs: self.send_msgs,
        }
    }

    /// Adds the counts of one finished batch. No total ever goes down.
    pub fn absorb(&mut self, batch: Totals)
        ensures
            final(self)@ == old(self)@.sum(batch),
            old(self)@.at_most(final(self)@),
    {
        let now = self.snapshot().plus(batch);
        self.blocks = now.blocks;
        self.transactions = now.transactions;
        self.msgs = now.msgs;
        self.ibc_msgs = now.ibc_msgs;
        self.send_msgs = now.send_msgs;
    }
}

} // verus!
