//! Sprite-sheet animation: a timer that steps a frame index round-robin.

use vstd::prelude::*;

use crate::timer::RepeatingTimer;

verus! {

/// The animation an entity carries: the timer that paces it and how many
/// frames its sprite sheet holds.
#[derive(Clone, Copy, Debug, PartialEq, Eq, Structural)]
pub struct AnimInfo {
    pub timer: RepeatingTimer,
    pub num: usize,
}

impl AnimInfo {
    /// The pacing timer is sound and there is at least one frame.
    pub open spec fn wf(self) -> bool {
        &&& self.timer.wf()
        &&& self.num > 0
    }

    /// An animation over `num` frames that advances every `period_ms`.
    pub fn new(period_ms: u64, num: usize) -> (a: AnimInfo)
        requires
            period_ms > 0,
            num > 0,
        ensures
            a == (AnimInfo {
                timer: RepeatingTimer { duration_ms: period_ms, elapsed_ms: 0 },
                num,
            }),
            a.wf(),
    {
        AnimInfo { timer: RepeatingTimer::new(period_ms), num }
    }

    /// One frame of animation: tick the pacing timer, and each time it fires
    /// step the sprite index to the next frame, wrapping round.
    pub fn anim_handler(&mut self, index: usize, dt_ms: u64) -> (next: usize)
        requires
            old(self).wf(),
            old(self).timer.elapsed_ms + dt_ms <= u64::MAX,
            index < usize::MAX,
        ensures
            final(self).num == old(self).num,
            final(self).timer == old(self).timer.after_tick(dt_ms),
            next == if old(self).timer.fires(dt_ms) {
                (index + 1) % (old(self).num as int)
            } else {
                index as int
            },
            final(self).wf(),
    {
        let fired = self.timer.tick(dt_ms);
        if fired {
            (index + 1) % self.num
        } else {
            index
        }
    }
}

} // verus!
