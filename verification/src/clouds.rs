//! Drifting background decoration: clouds and the little bees that float by.
//!
//! Each drifter scrolls left at its own speed; one that leaves the left edge
//! of its band reappears at the right edge. Fresh drifters are scattered
//! uniformly over the band and the window's height, with a random speed.

use vstd::prelude::*;

use crate::rng::sample_range;
use crate::units::COORD_LIMIT;

verus! {

/// How far past either screen edge a drifter's band reaches, in milliunits.
pub const DRIFT_MARGIN: i64 = 200_000;

/// One drifting decoration: its position, its leftward speed in milliunits
/// per frame, and the band it wraps around in.
#[derive(Clone, Copy, Debug, PartialEq, Eq, Structural)]
pub struct Cloud {
    pub x: i64,
    pub y: i64,
    pub vel: i64,
    pub left: i64,
    pub right: i64,
}

impl Cloud {
    /// The band is ordered and on the board, the drifter sits inside it, and
    /// its speed moves it left by less than the whole band per frame.
    pub open spec fn wf(self) -> bool {
        &&& -COORD_LIMIT <= self.left <= self.right <= COORD_LIMIT
        &&& self.left <= self.x <= self.right
        &&& 0 <= self.vel <= self.right - self.left + 1
    }

    /// Scatter a fresh drifter: somewhere in the band one margin wider than
    /// the window on each side, at a height within the window, with a speed
    /// drawn from [vel_lo, vel_hi).
    pub fn scatter(window_width: i64, window_height: i64, vel_lo: i64, vel_hi: i64) -> (c: Cloud)
        requires
            0 < window_width,
            window_width / 2 + DRIFT_MARGIN <= COORD_LIMIT,
            2 <= window_height <= COORD_LIMIT,
            0 <= vel_lo < vel_hi,
            vel_hi <= window_width,
        ensures
            c.left == -(window_width as int / 2) - DRIFT_MARGIN,
            c.right == window_width as int / 2 + DRIFT_MARGIN,
            c.left <= c.x < c.right,
            -(window_height as int / 2) <= c.y < window_height as int / 2,
            vel_lo <= c.vel < vel_hi,
            c.wf(),
    {
        let half_w = window_width / 2;
        let left = -half_w - DRIFT_MARGIN;
        let right = half_w + DRIFT_MARGIN;
        let half_h = window_height / 2;
        let x = sample_range(left, right);
        let y = sample_range(-half_h, half_h);
        let vel = sample_range(vel_lo, vel_hi);
        Cloud { x, y, vel, left, right }
    }

    /// One frame of drifting: move left by the drifter's speed, and wrap to
    /// the right edge of the band on leaving its left edge.
    pub fn drift(&mut self)
        requires
            old(self).wf(),
        ensures
            *final(self) == (Cloud { x: final(self).x, ..*old(self) }),
            final(self).x == if old(self).x - old(self).vel < old(self).left {
                old(self).right as int
            } else {
                old(self).x - old(self).vel
            },
            final(self).wf(),
    {
        let moved = self.x - self.vel;
        if moved < self.left {
            self.x = self.right;
        } else {
            self.x = moved;
        }
    }
}

} // verus!
