//! The decisions of the indexing run as a whole: finding the tip of the
//! chain, choosing the heights to catch up on, following the chain after
//! that, and starting over when the catch-up fails.
//!
//! Nothing here talks to a node or sleeps. Each function says what is to be
//! done next; the caller does it and reports back.

use crate::fetch::{MAX_RETRIES, RETRY_DELAY_SECS};
use vstd::prelude::*;

verus! {

/// How long the follow loop rests between two looks at the chain, in seconds.
pub const FOLLOW_DELAY_SECS: u64 = 5;

/// How long the follow loop rests after it could not find the tip, in
/// seconds.
pub const FOLLOW_ERROR_DELAY_SECS: u64 = 10;

/// The delay before the first new attempt at a failed catch-up, in seconds.
pub const FIRST_BACKOFF_SECS: u64 = 1;

/// What a node said when asked for the state of the chain.
#[derive(Clone, Copy, Debug, PartialEq, Eq, Structural)]
pub enum ChainReport {
    /// The chain produces blocks; `height` is its latest.
    Moving { height: u64 },
    /// The node answered, but the chain is not moving or the node is not in
    /// step with it.
    Idle,
    /// The node did not answer, or answered with an error.
    Failed,
}

/// Why the tip of the chain was not found.
#[derive(Clone, Copy, Debug, PartialEq, Eq, Structural)]
pub enum TipError {
    /// The last answer was that the chain is not moving.
    NotMoving,
    /// The last request failed.
    Unreachable,
}

/// What to do next while looking for the tip of the chain.
#[derive(Clone, Copy, Debug, PartialEq, Eq, Structural)]
pub enum TipAction {
    /// Wait `delay_secs` seconds, then ask the node again.
    RetryAfter { delay_secs: u64 },
    /// The tip is `height`.
    Found { height: u64 },
    /// Give up.
    Fail { error: TipError },
}

/// The search for the tip of the chain: a count of the answers that did not
/// give it.
#[derive(Clone, Copy, Debug, PartialEq, Eq, Structural)]
pub struct TipPoll {
    pub misses: u64,
}

impl TipPoll {
    pub open spec fn wf(self) -> bool {
        self.misses < MAX_RETRIES
    }

    /// What `report` leads to after `self.misses` answers without a tip.
    pub open spec fn verdict(self, report: ChainReport) -> TipAction {
        match report {
            ChainReport::Moving { height } => TipAction::Found { height },
            ChainReport::Idle => if self.misses + 1 >= MAX_RETRIES {
                TipAction::Fail { error: TipError::NotMoving }
            } else {
                TipAction::RetryAfter { delay_secs: RETRY_DELAY_SECS }
            },
            ChainReport::Failed => if self.misses + 1 >= MAX_RETRIES {
                TipAction::Fail { error: TipError::Unreachable }
            } else {
                TipAction::RetryAfter { delay_secs: RETRY_DELAY_SECS }
            },
        }
    }

    /// A search that has asked nothing yet.
    pub fn new() -> (poll: TipPoll)
        ensures
            poll.wf(),
            poll.misses == 0,
    {
        TipPoll { misses: 0 }
    }

    /// Takes the node's answer. A moving chain ends the search with its
    /// height. Any other answer counts as a miss: the search asks again after
    /// a delay, and fails at the [`MAX_RETRIES`]th miss with the reason of
    /// that last answer.
    pub fn on_report(&mut self, report: ChainReport) -> (action: TipAction)
        requires
            old(self).wf(),
        ensures
            action == old(self).verdict(report),
            action is RetryAfter ==> final(self).wf() && final(self).misses == old(self).misses
                + 1,
            !(action is RetryAfter) ==> *final(self) == *old(self),
    {
        match report {
            ChainReport::Moving { height } => TipAction::Found { height },
            ChainReport::Idle => {
                if self.misses + 1 >= MAX_RETRIES {
                    TipAction::Fail { error: TipError::NotMoving }
                } else {
                    self.misses = self.misses + 1;
                    TipAction::RetryAfter { delay_secs: RETRY_DELAY_SECS }
                }
            },
            ChainReport::Failed => {
                if self.misses + 1 >= MAX_RETRIES {
                    TipAction::Fail { error: TipError::Unreachable }
                } else {
                    self.misses = self.misses + 1;
                    TipAction::RetryAfter { delay_secs: RETRY_DELAY_SECS }
                }
            },
        }
    }
}

/// The heights to catch up on: from `start` up to, but without, `end`.
#[derive(Clone, Copy, Debug, PartialEq, Eq, Structural)]
pub struct CatchUpPlan {
    pub start: u64,
    pub end: u64,
}

/// The height at which the catch-up starts: the checkpoint where there is
/// one, else the oldest height that the node holds.
pub open spec fn catch_up_start(checkpoint: Option<u64>, earliest: u64) -> u64 {
    match checkpoint {
        Some(height) => height,
        None => earliest,
    }
}

/// The height at which the catch-up ends: the tip, or in test mode the start
/// plus the limit where that is lower.
pub open spec fn catch_up_end(start: u64, tip: u64, test_mode: bool, test_block_limit: u64) -> u64 {
    if test_mode && start + test_block_limit < tip {
        (start + test_block_limit) as u64
    } else {
        tip
    }
}

impl CatchUpPlan {
    /// The checkpoint to save once the catch-up is done.
    pub open spec fn checkpoint_after(self) -> u64 {
        self.end
    }

    /// Chooses the heights to catch up on. `checkpoint` is what was saved by
    /// an earlier run, `earliest` the oldest height that the node holds, and
    /// `tip` the latest.
    pub fn new(
        checkpoint: Option<u64>,
        earliest: u64,
        tip: u64,
        test_mode: bool,
        test_block_limit: u64,
    ) -> (plan: CatchUpPlan)
        ensures
            plan.start == catch_up_start(checkpoint, earliest),
            plan.end == catch_up_end(plan.start, tip, test_mode, test_block_limit),
    {
        let start: u64 = match checkpoint {
            Some(height) => height,
            None => earliest,
        };
        let end: u64 = if test_mode {
            match start.checked_add(test_block_limit) {
                Some(capped) => if capped < tip {
                    capped
                } else {
                    tip
                },
                None => tip,
            }
        } else {
            tip
        };
        CatchUpPlan { start, end }
    }

    /// The checkpoint to save once every batch of the plan is done.
    pub fn checkpoint(&self) -> (height: u64)
        ensures
            height == self.checkpoint_after(),
    {
        self.end
    }
}

/// The heights from `first` up to and with `last`.
#[derive(Clone, Copy, Debug, PartialEq, Eq, Structural)]
pub struct HeightSpan {
    pub first: u64,
    pub last: u64,
}

/// The heights that the follow loop has to read when the checkpoint is
/// `checkpoint` and the chain stands at `tip`: those above the checkpoint up
/// to and with the tip. No checkpoint counts as height zero.
pub open spec fn new_heights(checkpoint: Option<u64>, tip: u64) -> Option<HeightSpan> {
    let done = match checkpoint {
        Some(height) => height,
        None => 0,
    };
    if tip > done {
        Some(HeightSpan { first: (done + 1) as u64, last: tip })
    } else {
        None
    }
}

/// Chooses the heights that the follow loop reads next, one by one and
/// lowest first. Once each has been tried the checkpoint to save is the last
/// of them, the tip. `None` means that the chain has not grown: nothing is
/// read and the checkpoint stays.
pub fn follow_step(checkpoint: Option<u64>, tip: u64) -> (span: Option<HeightSpan>)
    ensures
        span == new_heights(checkpoint, tip),
{
    let done: u64 = match checkpoint {
        Some(height) => height,
        None => 0,
    };
    if tip > done {
        Some(HeightSpan { first: done + 1, last: tip })
    } else {
        None
    }
}

/// The delay that follows the delay `delay_secs`: twice as long, or as long
/// where twice as long cannot be held.
pub open spec fn doubled(delay_secs: u64) -> u64 {
    if 2 * delay_secs <= u64::MAX {
        (2 * delay_secs) as u64
    } else {
        delay_secs
    }
}

/// Computes the delay before the next attempt from the one before the last.
pub fn next_backoff(delay_secs: u64) -> (next: u64)
    ensures
        next == doubled(delay_secs),
        next >= delay_secs,
{
    match delay_secs.checked_mul(2) {
        Some(next) => next,
        None => delay_secs,
    }
}

/// Where the run as a whole stands.
#[derive(Clone, Copy, Debug, PartialEq, Eq, Structural)]
pub enum Phase {
    /// The catch-up is being tried. `last_delay` is the delay that came
    /// before this attempt, or `None` where it is the first.
    CatchingUp { last_delay: Option<u64> },
    /// The catch-up is done; the chain is being followed.
    Following,
}

/// What the supervisor of the run is to do next.
#[derive(Clone, Copy, Debug, PartialEq, Eq, Structural)]
pub enum SupervisorAction {
    /// Wait `delay_secs` seconds, then try the whole catch-up again.
    RetryAfter { delay_secs: u64 },
    /// Follow the chain.
    Follow,
}

/// The delay before the attempt that follows a failed one.
pub open spec fn backoff_after(last_delay: Option<u64>) -> u64 {
    match last_delay {
        None => FIRST_BACKOFF_SECS,
        Some(delay_secs) => doubled(delay_secs),
    }
}

/// The delay before the attempt that follows `failures` failed ones in a
/// row, or `None` before anything has failed.
pub open spec fn delay_after(failures: nat) -> Option<u64>
    decreases failures,
{
    if failures == 0 {
        None
    } else {
        Some(backoff_after(delay_after((failures - 1) as nat)))
    }
}

/// Two to the power of `k`.
pub open spec fn pow2(k: nat) -> nat
    decreases k,
{
    if k == 0 {
        1
    } else {
        2 * pow2((k - 1) as nat)
    }
}

/// The delays are one second, two, four and so on: each failure doubles
/// the delay, for as long as a `u64` can hold the seconds.
pub proof fn lemma_delay_doubles(failures: nat)
    requires
        1 <= failures <= 64,
    ensures
        delay_after(failures) == Some(pow2((failures - 1) as nat) as u64),
        pow2((failures - 1) as nat) <= 0x8000_0000_0000_0000,
    decreases failures,
{
    assert(pow2(63) == 0x8000_0000_0000_0000) by {
        reveal_with_fuel(pow2, 64);
    }
    lemma_pow2_grows((failures - 1) as nat, 63);
    if failures > 1 {
        lemma_delay_doubles((failures - 1) as nat);
    }
}

proof fn lemma_pow2_grows(k: nat, bound: nat)
    requires
        k <= bound,
    ensures
        pow2(k) <= pow2(bound),
    decreases bound,
{
    if k < bound {
        lemma_pow2_grows(k, (bound - 1) as nat);
    }
}

impl Phase {
    /// The phase in which a run starts.
    pub fn start() -> (phase: Phase)
        ensures
            phase == (Phase::CatchingUp { last_delay: None }),
    {
        Phase::CatchingUp { last_delay: None }
    }

    /// Takes the result of a catch-up attempt. After a success the chain is
    /// followed. After a failure the catch-up is tried again, first after
    /// [`FIRST_BACKOFF_SECS`] and then after twice the delay before, without
    /// end. While the chain is followed nothing changes.
    pub fn on_catch_up(self, succeeded: bool) -> (next: (Phase, SupervisorAction))
        ensures
            match self {
                Phase::Following => next == (Phase::Following, SupervisorAction::Follow),
                Phase::CatchingUp { last_delay } => if succeeded {
                    next == (Phase::Following, SupervisorAction::Follow)
                } else {
                    next == (
                        Phase::CatchingUp { last_delay: Some(backoff_after(last_delay)) },
                        SupervisorAction::RetryAfter { delay_secs: backoff_after(last_delay) },
                    )
                },
            },
    {
        match self {
            Phase::Following => (Phase::Following, SupervisorAction::Follow),
            Phase::CatchingUp { last_delay } => {
                if succeeded {
                    (Phase::Following, SupervisorAction::Follow)
                } else {
                    let delay_secs: u64 = match last_delay {
                        None => FIRST_BACKOFF_SECS,
                        Some(before) => next_backoff(before),
                    };
                    (
                        Phase::CatchingUp { last_delay: Some(delay_secs) },
                        SupervisorAction::RetryAfter { delay_secs },
                    )
                }
            },
        }
    }
}

} // verus!
