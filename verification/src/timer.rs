//! A repeating countdown driven by per-frame time deltas, used by the
//! enemy and star spawners.

use vstd::prelude::*;

verus! {

use crate::math::MAX_TICK_MS;

/// Largest timer period, in milliseconds.
pub const MAX_TIMER_MS: u64 = 1_000_000_000;

/// A timer that elapses every `period_ms` milliseconds and starts over.
#[derive(Clone, Copy, Debug, PartialEq, Eq, Structural)]
pub struct RepeatingTimer {
    pub period_ms: u64,
    pub elapsed_ms: u64,
    pub finished_this_tick: bool,
}

impl RepeatingTimer {
    pub open spec fn wf(self) -> bool {
        0 < self.period_ms <= MAX_TIMER_MS && self.elapsed_ms < self.period_ms
    }

    pub fn new(period_ms: u64) -> (t: Self)
        requires
            0 < period_ms <= MAX_TIMER_MS,
        ensures
            t.period_ms == period_ms,
            t.elapsed_ms == 0,
            !t.finished_this_tick,
            t.wf(),
    {
        RepeatingTimer { period_ms, elapsed_ms: 0, finished_this_tick: false }
    }

    /// The state one frame of `dt_ms` milliseconds later: the timer
    /// finishes exactly in the ticks where the accumulated time reaches the
    /// period, and then keeps the remainder.
    pub open spec fn spec_tick(self, dt_ms: u64) -> RepeatingTimer {
        if self.elapsed_ms + dt_ms >= self.period_ms {
            RepeatingTimer {
                period_ms: self.period_ms,
                elapsed_ms: ((self.elapsed_ms + dt_ms) % (self.period_ms as int)) as u64,
                finished_this_tick: true,
            }
        } else {
            RepeatingTimer {
                period_ms: self.period_ms,
                elapsed_ms: (self.elapsed_ms + dt_ms) as u64,
                finished_this_tick: false,
            }
        }
    }

    /// Advances the timer by one frame.
    pub fn tick(&mut self, dt_ms: u64)
        requires
            old(self).wf(),
            dt_ms <= MAX_TICK_MS,
        ensures
            final(self).wf(),
            *final(self) == old(self).spec_tick(dt_ms),
    {
        let total: u64 = self.elapsed_ms + dt_ms;
        if total >= self.period_ms {
            self.finished_this_tick = true;
            self.elapsed_ms = total % self.period_ms;
        } else {
            self.finished_this_tick = false;
            self.elapsed_ms = total;
        }
    }

    pub fn just_finished(&self) -> (r: bool)
        ensures
            r == self.finished_this_tick,
    {
        self.finished_this_tick
    }
}

} // verus!
