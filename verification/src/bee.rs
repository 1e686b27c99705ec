//! The bee sprite's wandering flight.
//!
//! The bee drifts toward an aim point; every time its wander timer fires it
//! picks a fresh aim uniformly inside a window around its home center. Each
//! frame the bee closes a fraction of the distance to the aim, the fraction
//! growing with the frame's duration.

use vstd::prelude::*;

use crate::geometry::{Aabb, Collider, Transform2};
use crate::rng::sample_range;
use crate::timer::RepeatingTimer;
use crate::units::{div_trunc, COORD_LIMIT};

verus! {

/// Milliseconds over which the bee would close the whole distance to its
/// aim: each frame moves it dt/LERP_PERIOD_MS of the way there.
pub const LERP_PERIOD_MS: i64 = 1250;

/// The wandering flight of one bee: where it is headed, the window it picks
/// aims from (a center and the window's full width and height), and the
/// timer that schedules re-aiming.
#[derive(Clone, Copy, Debug, PartialEq, Eq, Structural)]
pub struct BeeFly {
    pub aim_x: i64,
    pub aim_y: i64,
    pub center_x: i64,
    pub center_y: i64,
    pub width: i64,
    pub height: i64,
    pub timer: RepeatingTimer,
}

impl BeeFly {
    /// The aim window has positive extent, lies on the board, and the aim
    /// itself lies inside it; the wander timer is sound.
    pub open spec fn wf(self) -> bool {
        &&& 0 < self.width
        &&& 0 < self.height
        &&& -COORD_LIMIT <= self.center_x - self.width / 2
        &&& self.center_x + self.width / 2 <= COORD_LIMIT
        &&& -COORD_LIMIT <= self.center_y - self.height / 2
        &&& self.center_y + self.height / 2 <= COORD_LIMIT
        &&& self.center_x - self.width / 2 <= self.aim_x <= self.center_x + self.width / 2
        &&& self.center_y - self.height / 2 <= self.aim_y <= self.center_y + self.height / 2
        &&& self.timer.wf()
    }

    /// A bee at rest: it aims at its own center until the timer first fires.
    pub fn new(center_x: i64, center_y: i64, width: i64, height: i64, period_ms: u64) -> (b:
        BeeFly)
        requires
            0 < width,
            0 < height,
            period_ms > 0,
            -COORD_LIMIT <= center_x - width / 2,
            center_x + width / 2 <= COORD_LIMIT,
            -COORD_LIMIT <= center_y - height / 2,
            center_y + height / 2 <= COORD_LIMIT,
        ensures
            b == (BeeFly {
                aim_x: center_x,
                aim_y: center_y,
                center_x,
                center_y,
                width,
                height,
                timer: RepeatingTimer { duration_ms: period_ms, elapsed_ms: 0 },
            }),
            b.wf(),
    {
        BeeFly {
            aim_x: center_x,
            aim_y: center_y,
            center_x,
            center_y,
            width,
            height,
            timer: RepeatingTimer::new(period_ms),
        }
    }

    /// Pick a fresh aim uniformly inside the window around the center.
    /// Only the aim changes.
    pub fn retarget(&mut self)
        requires
            old(self).wf(),
        ensures
            *final(self) == (BeeFly {
                aim_x: final(self).aim_x,
                aim_y: final(self).aim_y,
                ..*old(self)
            }),
            old(self).center_x - old(self).width / 2 <= final(self).aim_x < old(self).center_x
                + old(self).width - old(self).width / 2,
            old(self).center_y - old(self).height / 2 <= final(self).aim_y < old(self).center_y
                + old(self).height - old(self).height / 2,
            final(self).wf(),
    {
        let half_w = self.width / 2;
        let half_h = self.height / 2;
        self.aim_x = sample_range(self.center_x - half_w, self.center_x + (self.width - half_w));
        self.aim_y = sample_range(self.center_y - half_h, self.center_y + (self.height - half_h));
    }

    /// One frame of wandering: tick the timer, re-aim if it fired, and hand
    /// back the position one blend step closer to the (possibly fresh) aim.
    pub fn bee_fly(&mut self, x: i64, y: i64, dt_ms: u64) -> (pos: (i64, i64))
        requires
            old(self).wf(),
            old(self).timer.elapsed_ms + dt_ms <= u64::MAX,
            -COORD_LIMIT <= x <= COORD_LIMIT,
            -COORD_LIMIT <= y <= COORD_LIMIT,
            dt_ms <= LERP_PERIOD_MS,
        ensures
            final(self).timer == old(self).timer.after_tick(dt_ms),
            *final(self) == (BeeFly {
                aim_x: final(self).aim_x,
                aim_y: final(self).aim_y,
                timer: final(self).timer,
                ..*old(self)
            }),
            !old(self).timer.fires(dt_ms) ==> final(self).aim_x == old(self).aim_x
                && final(self).aim_y == old(self).aim_y,
            pos.0 == lerp_spec(x as int, final(self).aim_x as int, dt_ms as int),
            pos.1 == lerp_spec(y as int, final(self).aim_y as int, dt_ms as int),
            final(self).wf(),
    {
        let fired = self.timer.tick(dt_ms);
        if fired {
            self.retarget();
        }
        let nx = lerp_step(x, self.aim_x, dt_ms);
        let ny = lerp_step(y, self.aim_y, dt_ms);
        (nx, ny)
    }
}

/// The position one blend step takes `p` to, headed for `aim`: it moves by
/// the fraction dt/LERP_PERIOD_MS of the remaining distance, truncated
/// toward zero.
pub open spec fn lerp_spec(p: int, aim: int, dt_ms: int) -> int {
    p + div_trunc((aim - p) * dt_ms, LERP_PERIOD_MS as int)
}

/// Move `p` one blend step toward `aim` for a frame of `dt_ms`.
pub fn lerp_step(p: i64, aim: i64, dt_ms: u64) -> (r: i64)
    requires
        -COORD_LIMIT <= p <= COORD_LIMIT,
        -COORD_LIMIT <= aim <= COORD_LIMIT,
        dt_ms <= LERP_PERIOD_MS,
    ensures
        r == lerp_spec(p as int, aim as int, dt_ms as int),
        -COORD_LIMIT <= r <= COORD_LIMIT,
{
    let dt: i64 = dt_ms as i64;
    let diff: i64 = aim - p;
    if diff >= 0 {
        proof {
            assert(0 <= diff * dt <= diff * LERP_PERIOD_MS && 0 <= (diff * dt) / (
            LERP_PERIOD_MS as int) <= diff) by (nonlinear_arith)
                requires
                    0 <= diff <= 2 * COORD_LIMIT,
                    0 <= dt <= LERP_PERIOD_MS,
            ;
        }
        let step: i64 = (diff * dt) / LERP_PERIOD_MS;
        p + step
    } else {
        proof {
            assert((-diff) * dt == -(diff * dt) && 0 <= (-diff) * dt <= (-diff) * LERP_PERIOD_MS
                && 0 <= ((-diff) * dt) / (LERP_PERIOD_MS as int) <= -diff) by (nonlinear_arith)
                requires
                    0 < -diff <= 2 * COORD_LIMIT,
                    0 <= dt <= LERP_PERIOD_MS,
            ;
        }
        let step: i64 = ((-diff) * dt) / LERP_PERIOD_MS;
        p - step
    }
}

/// The square collider the bee carries, in its local coordinates.
pub fn bee_collider() -> (c: Collider)
    ensures
        c.colliders@.len() == 1,
        c.colliders@[0] == (Aabb { l: (-35_000) as i64, r: 35_000, t: 35_000, b: (-35_000) as i64 }),
        c.wf(),
{
    let square = Aabb::new(-35_000, 35_000, 35_000, -35_000);
    let mut boxes: Vec<Aabb> = Vec::new();
    boxes.push(square);
    Collider::new(boxes)
}

/// Where the bee's sprite and collider stand in the world: at its position,
/// drawn at unit scale.
pub fn bee_transform(x: i64, y: i64) -> (t: Transform2)
    requires
        -COORD_LIMIT <= x <= COORD_LIMIT,
        -COORD_LIMIT <= y <= COORD_LIMIT,
    ensures
        t == (Transform2 { x, y, scale: 1000 }),
        t.wf(),
{
    Transform2 { x, y, scale: 1000 }
}

} // verus!
