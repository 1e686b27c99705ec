//! A repeating countdown measured in whole milliseconds.
//!
//! Ticking adds the frame's delta to the elapsed time; the tick that reaches
//! or passes the duration reports the timer as just finished and keeps the
//! remainder, so a repeating timer never loses time across periods.

use vstd::prelude::*;

verus! {

/// A repeating timer: fires every `duration_ms` milliseconds of ticked time.
#[derive(Clone, Copy, Debug, PartialEq, Eq, Structural)]
pub struct RepeatingTimer {
    pub duration_ms: u64,
    pub elapsed_ms: u64,
}

impl RepeatingTimer {
    /// The period is positive and the stored elapsed time never exceeds it.
    pub open spec fn wf(self) -> bool {
        &&& self.duration_ms > 0
        &&& self.elapsed_ms <= self.duration_ms
    }

    /// Whether ticking by `delta_ms` reaches or crosses a period boundary.
    pub open spec fn fires(self, delta_ms: u64) -> bool {
        self.elapsed_ms + delta_ms >= self.duration_ms
    }

    /// The timer as it stands after a tick of `delta_ms`: the elapsed time
    /// grows by the delta and wraps to the remainder on firing.
    pub open spec fn after_tick(self, delta_ms: u64) -> RepeatingTimer {
        RepeatingTimer {
            duration_ms: self.duration_ms,
            elapsed_ms: if self.fires(delta_ms) {
                ((self.elapsed_ms + delta_ms) % (self.duration_ms as int)) as u64
            } else {
                (self.elapsed_ms + delta_ms) as u64
            },
        }
    }

    /// A fresh timer that fires `duration_ms` after its first tick begins.
    pub fn new(duration_ms: u64) -> (t: RepeatingTimer)
        requires
            duration_ms > 0,
        ensures
            t == (RepeatingTimer { duration_ms, elapsed_ms: 0 }),
            t.wf(),
    {
        RepeatingTimer { duration_ms, elapsed_ms: 0 }
    }

    /// A timer wound all the way forward, so that its very next tick fires.
    pub fn new_expired(duration_ms: u64) -> (t: RepeatingTimer)
        requires
            duration_ms > 0,
        ensures
            t == (RepeatingTimer { duration_ms, elapsed_ms: duration_ms }),
            t.wf(),
    {
        RepeatingTimer { duration_ms, elapsed_ms: duration_ms }
    }

    /// Advance the timer by `delta_ms`. Returns whether a period boundary was
    /// reached or crossed; if so the elapsed time wraps to the remainder.
    pub fn tick(&mut self, delta_ms: u64) -> (just_finished: bool)
        requires
            old(self).wf(),
            old(self).elapsed_ms + delta_ms <= u64::MAX,
        ensures
            just_finished == old(self).fires(delta_ms),
            *final(self) == old(self).after_tick(delta_ms),
            final(self).wf(),
    {
        let total = self.elapsed_ms + delta_ms;
        if total >= self.duration_ms {
            self.elapsed_ms = total % self.duration_ms;
            true
        } else {
            self.elapsed_ms = total;
            false
        }
    }
}

} // verus!
