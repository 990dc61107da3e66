//! Repeating countdown timers that can be paused without losing progress.
//!
//! A timer accumulates elapsed milliseconds while unpaused and reports a
//! fire exactly once per interval crossing, wrapping the accumulator past
//! the boundary so the next interval begins immediately (repeating-timer
//! semantics). Pausing freezes the accumulator; resuming continues from
//! the frozen value.

use vstd::prelude::*;

verus! {

/// A repeating countdown timer with an independently pausable accumulator.
pub struct PausableTimer {
    /// Milliseconds accumulated toward the next fire; always below the interval.
    pub elapsed_ms: u64,
    /// Fixed length of one period, in milliseconds.
    pub interval_ms: u64,
    /// While set, `tick` leaves the accumulator untouched and never fires.
    pub paused: bool,
}

impl PausableTimer {
    /// A timer is well formed when its interval is positive and the
    /// accumulator has already been wrapped below the interval.
    pub open spec fn wf(self) -> bool {
        0 < self.interval_ms && self.elapsed_ms < self.interval_ms
    }

    /// A fresh, unpaused timer at the start of its first period.
    pub fn new(interval_ms: u64) -> (t: Self)
        requires
            0 < interval_ms,
        ensures
            t.wf(),
            t.interval_ms == interval_ms,
            t.elapsed_ms == 0,
            !t.paused,
    {
        PausableTimer { elapsed_ms: 0, interval_ms, paused: false }
    }

    /// Advances the accumulator by `delta_ms` unless paused, and reports
    /// whether an interval boundary was crossed; on a fire the accumulator
    /// wraps past the boundary.
    pub fn tick(&mut self, delta_ms: u64) -> (fired: bool)
        requires
            old(self).wf(),
            delta_ms <= u64::MAX - old(self).interval_ms,
        ensures
            final(self).wf(),
            final(self).interval_ms == old(self).interval_ms,
            final(self).paused == old(self).paused,
            old(self).paused ==> !fired && final(self).elapsed_ms == old(self).elapsed_ms,
            !old(self).paused ==> {
                &&& fired == (old(self).elapsed_ms + delta_ms >= old(self).interval_ms)
                &&& final(self).elapsed_ms
                    == (old(self).elapsed_ms + delta_ms) % (old(self).interval_ms as int)
            },
    {
        if self.paused {
            return false;
        }
        let total: u64 = self.elapsed_ms + delta_ms;
        if total >= self.interval_ms {
            self.elapsed_ms = total % self.interval_ms;
            true
        } else {
            proof {
                vstd::arithmetic::div_mod::lemma_small_mod(total as nat, self.interval_ms as nat);
            }
            self.elapsed_ms = total;
            false
        }
    }

    /// Freezes the accumulator without discarding accumulated progress.
    pub fn pause(&mut self)
        ensures
            final(self).paused,
            final(self).elapsed_ms == old(self).elapsed_ms,
            final(self).interval_ms == old(self).interval_ms,
    {
        self.paused = true;
    }

    /// Lets the accumulator advance again from its frozen value.
    pub fn unpause(&mut self)
        ensures
            !final(self).paused,
            final(self).elapsed_ms == old(self).elapsed_ms,
            final(self).interval_ms == old(self).interval_ms,
    {
        self.paused = false;
    }
}

} // verus!
