//! The pillar obstacles and the vertical flight they share.
//!
//! Pillars scroll across the screen at a fixed speed and are dropped once
//! they leave the right edge. All pillars ride one shared vertical position,
//! which a jump impulse pushes up and gravity pulls down, clamped to the
//! screen's band; each pillar adds its own random vertical offset. A pillar
//! whose gap the bee has flown past scores one point, once.

use vstd::prelude::*;

use crate::game::GameInfo;
use crate::geometry::{Aabb, Collider, Transform2};
use crate::rng::sample_range;
use crate::timer::RepeatingTimer;
use crate::units::{clamp64, clamp_spec, COORD_LIMIT};

verus! {

/// Horizontal pillar speed, in milliunits per millisecond.
pub const PILLAR_X_VEL: i64 = 150;

/// Vertical velocity granted by a jump, in milliunits per frame.
pub const JUMP_VELOCITY: i64 = 4000;

/// Vertical velocity lost per millisecond, in milliunits per frame.
pub const GRAVITY: i64 = 10;

/// Half the band the shared vertical position may move in, in milliunits.
pub const Y_BAND: i64 = 200_000;

/// How far past either screen edge pillars live, in milliunits.
pub const X_MARGIN: i64 = 100_000;

/// Milliseconds between two pillar spawns.
pub const SPAWN_PERIOD_MS: u64 = 2500;

/// The sprite scale pillars are drawn and collided at, in milliunits.
pub const PILLAR_SCALE: i64 = 2500;

/// Half a pillar's width in its local coordinates, in milliunits.
pub const PILLAR_HALF_WIDTH: i64 = 24_000;

/// Local y where the gap between a pillar's halves begins, in milliunits.
pub const GAP_BOTTOM: i64 = -50_000;

/// Local y where the gap between a pillar's halves ends, in milliunits.
pub const GAP_TOP: i64 = 43_000;

/// How far a pillar's halves extend beyond the screen, in milliunits.
pub const PILLAR_REACH: i64 = 1_000_000;

/// Half the width of the band a pillar's random offset is drawn from,
/// in milliunits.
pub const OFFSET_BAND: i64 = 100_000;

/// One scrolling obstacle: its horizontal position, its random vertical
/// offset from the shared position, and whether it has scored already.
#[derive(Clone, Copy, Debug, PartialEq, Eq, Structural)]
pub struct Pillar {
    pub x: i64,
    pub y_offset: i64,
    pub passed_bee: bool,
}

/// What the pillars share: the scroll speed, the jump-driven vertical
/// position with its velocity and bounds, the horizontal band pillars live
/// in, and the spawn timer.
#[derive(Clone, Copy, Debug, PartialEq, Eq, Structural)]
pub struct PillarShared {
    pub x_vel: i64,
    pub y_pos: i64,
    pub y_vel: i64,
    pub x_min: i64,
    pub x_max: i64,
    pub y_min: i64,
    pub y_max: i64,
    pub spawn_timer: RepeatingTimer,
}

impl PillarShared {
    /// Bounds are ordered and on the board, the shared position sits inside
    /// its band, and the spawn timer is sound.
    pub open spec fn wf(self) -> bool {
        &&& -COORD_LIMIT <= self.x_min <= self.x_max <= COORD_LIMIT
        &&& -COORD_LIMIT <= self.y_min <= self.y_max <= COORD_LIMIT
        &&& self.y_min <= self.y_pos <= self.y_max
        &&& 0 <= self.x_vel
        &&& self.spawn_timer.wf()
    }

    /// The shared state a run starts with, for a window of the given width:
    /// pillars spawn one margin left of the screen and die one margin right
    /// of it, the vertical band is symmetric, and the spawn timer is wound
    /// forward so the first pillar appears at once.
    pub fn new(window_width: i64) -> (s: PillarShared)
        requires
            0 < window_width <= COORD_LIMIT,
        ensures
            s.x_vel == PILLAR_X_VEL,
            s.y_pos == 0,
            s.y_vel == 0,
            s.x_min == -(window_width as int / 2) - X_MARGIN,
            s.x_max == window_width as int / 2 + X_MARGIN,
            s.y_min == -Y_BAND,
            s.y_max == Y_BAND,
            s.spawn_timer == (RepeatingTimer {
                duration_ms: SPAWN_PERIOD_MS,
                elapsed_ms: SPAWN_PERIOD_MS,
            }),
            s.wf(),
    {
        let half = window_width / 2;
        PillarShared {
            x_vel: PILLAR_X_VEL,
            y_pos: 0,
            y_vel: 0,
            x_min: -half - X_MARGIN,
            x_max: half + X_MARGIN,
            y_min: -Y_BAND,
            y_max: Y_BAND,
            spawn_timer: RepeatingTimer::new_expired(SPAWN_PERIOD_MS),
        }
    }

    /// One frame of jump input: a press resets the vertical velocity to the
    /// jump impulse, and gravity then bleeds velocity off for the frame's
    /// duration.
    pub fn jump_input(&mut self, pressed: bool, dt_ms: u64)
        requires
            GRAVITY * dt_ms <= i64::MAX,
            (if pressed {
                JUMP_VELOCITY as int
            } else {
                old(self).y_vel as int
            }) - GRAVITY * dt_ms >= i64::MIN,
        ensures
            *final(self) == (PillarShared { y_vel: final(self).y_vel, ..*old(self) }),
            final(self).y_vel == (if pressed {
                JUMP_VELOCITY as int
            } else {
                old(self).y_vel as int
            }) - GRAVITY * dt_ms,
    {
        if pressed {
            self.y_vel = JUMP_VELOCITY;
        }
        self.y_vel = self.y_vel - GRAVITY * (dt_ms as i64);
    }

    /// One frame of vertical motion: the shared position moves by the
    /// current velocity and is clamped into its band.
    pub fn advance_y(&mut self)
        requires
            old(self).wf(),
            i64::MIN <= old(self).y_pos + old(self).y_vel <= i64::MAX,
        ensures
            *final(self) == (PillarShared { y_pos: final(self).y_pos, ..*old(self) }),
            final(self).y_pos == clamp_spec(
                old(self).y_pos + old(self).y_vel,
                old(self).y_min as int,
                old(self).y_max as int,
            ),
            final(self).wf(),
    {
        let moved = self.y_pos + self.y_vel;
        self.y_pos = clamp64(moved, self.y_min, self.y_max);
    }

    /// The world height a pillar hangs at: the shared position plus the
    /// pillar's own offset.
    pub fn pillar_y(&self, p: &Pillar) -> (y: i64)
        requires
            i64::MIN <= self.y_pos + p.y_offset <= i64::MAX,
        ensures
            y == self.y_pos + p.y_offset,
    {
        self.y_pos + p.y_offset
    }

    /// Where a pillar's sprite and collider stand in the world.
    pub fn pillar_transform(&self, p: &Pillar) -> (t: Transform2)
        requires
            -COORD_LIMIT <= p.x <= COORD_LIMIT,
            -COORD_LIMIT <= self.y_pos + p.y_offset <= COORD_LIMIT,
        ensures
            t == (Transform2 { x: p.x, y: (self.y_pos + p.y_offset) as i64, scale: PILLAR_SCALE }),
            t.wf(),
    {
        Transform2 { x: p.x, y: self.y_pos + p.y_offset, scale: PILLAR_SCALE }
    }

    /// A newly spawned pillar: it enters at the left bound, has not scored,
    /// and hangs at a fresh random offset within the offset band.
    pub fn spawn_pillar(&self) -> (p: Pillar)
        ensures
            p.x == self.x_min,
            p.passed_bee == false,
            -OFFSET_BAND <= p.y_offset < OFFSET_BAND,
    {
        let y_offset = sample_range(-OFFSET_BAND, OFFSET_BAND);
        Pillar { x: self.x_min, y_offset, passed_bee: false }
    }

    /// One frame of the spawner: tick the spawn timer, and on each firing
    /// add one fresh pillar at the left bound.
    pub fn pillar_spawner(&mut self, pillars: &mut Vec<Pillar>, dt_ms: u64)
        requires
            old(self).spawn_timer.wf(),
            old(self).spawn_timer.elapsed_ms + dt_ms <= u64::MAX,
        ensures
            *final(self) == (PillarShared {
                spawn_timer: old(self).spawn_timer.after_tick(dt_ms),
                ..*old(self)
            }),
            old(self).spawn_timer.fires(dt_ms) ==> {
                &&& final(pillars)@.len() == old(pillars)@.len() + 1
                &&& final(pillars)@.drop_last() == old(pillars)@
                &&& final(pillars)@.last().x == old(self).x_min
                &&& final(pillars)@.last().passed_bee == false
                &&& -OFFSET_BAND <= final(pillars)@.last().y_offset < OFFSET_BAND
            },
            !old(self).spawn_timer.fires(dt_ms) ==> final(pillars)@ == old(pillars)@,
    {
        let fired = self.spawn_timer.tick(dt_ms);
        if fired {
            let p = self.spawn_pillar();
            pillars.push(p);
            proof {
                assert(pillars@.drop_last() =~= old(pillars)@);
            }
        }
    }
}

/// A pillar carried `d` milliunits to the right.
pub open spec fn moved(p: Pillar, d: int) -> Pillar {
    Pillar { x: (p.x + d) as i64, ..p }
}

/// The pillars that survive a frame of scrolling: each moved by `d`, keeping
/// those that have not passed the right bound `x_max`, in order.
pub open spec fn culled(s: Seq<Pillar>, d: int, x_max: int) -> Seq<Pillar>
    decreases s.len(),
{
    if s.len() == 0 {
        Seq::empty()
    } else {
        let rest = culled(s.drop_last(), d, x_max);
        let m = moved(s.last(), d);
        if m.x <= x_max {
            rest.push(m)
        } else {
            rest
        }
    }
}

/// One frame of scrolling: every pillar moves right by the shared speed
/// times the frame's duration, and pillars past the right bound despawn.
pub fn pillar_move(pillars: &mut Vec<Pillar>, x_vel: i64, dt_ms: u64, x_max: i64)
    requires
        0 <= x_vel,
        dt_ms <= COORD_LIMIT,
        0 <= x_vel * dt_ms <= COORD_LIMIT,
        forall|i: int|
            0 <= i < old(pillars)@.len() ==> -COORD_LIMIT <= (#[trigger] old(
                pillars,
            )@[i]).x <= COORD_LIMIT,
    ensures
        final(pillars)@ == culled(old(pillars)@, x_vel * dt_ms, x_max as int),
{
    let d: i64 = x_vel * (dt_ms as i64);
    let ghost orig = pillars@;
    let mut out: Vec<Pillar> = Vec::new();
    let n = pillars.len();
    let mut i: usize = 0;
    while i < n
        invariant
            n == orig.len(),
            pillars@ == orig,
            0 <= i <= n,
            0 <= d <= COORD_LIMIT,
            forall|k: int| 0 <= k < n ==> -COORD_LIMIT <= (#[trigger] orig[k]).x <= COORD_LIMIT,
            out@ == culled(orig.subrange(0, i as int), d as int, x_max as int),
        decreases n - i,
    {
        let p = pillars[i];
        let nx = p.x + d;
        if nx <= x_max {
            out.push(Pillar { x: nx, ..p });
        }
        proof {
            assert(orig.subrange(0, i + 1 as int).drop_last() =~= orig.subrange(0, i as int));
            assert(orig.subrange(0, i + 1 as int).last() == orig[i as int]);
        }
        i += 1;
    }
    proof {
        assert(orig.subrange(0, n as int) =~= orig);
    }
    *pillars = out;
}

/// One frame of scrolling for a single pillar: it moves right by the shared
/// speed times the frame's duration.
pub fn pillar_advance(p: &mut Pillar, x_vel: i64, dt_ms: u64)
    requires
        0 <= x_vel,
        dt_ms <= COORD_LIMIT,
        0 <= x_vel * dt_ms <= COORD_LIMIT,
        -COORD_LIMIT <= old(p).x <= COORD_LIMIT,
    ensures
        *final(p) == moved(*old(p), x_vel * dt_ms),
{
    p.x = p.x + x_vel * (dt_ms as i64);
}

/// Whether a pillar has scrolled past the right bound and should despawn.
pub fn pillar_offscreen(p: &Pillar, x_max: i64) -> (r: bool)
    ensures
        r == (p.x > x_max),
{
    p.x > x_max
}

/// A pillar as the scorer leaves it: once its position passes the bee's
/// station `cx` it is marked as passed.
pub open spec fn pass_mark(p: Pillar, cx: int) -> Pillar {
    Pillar { passed_bee: p.passed_bee || p.x > cx, ..p }
}

/// How many pillars of `s` score this frame: those not yet marked whose
/// position has passed the bee's station `cx`.
pub open spec fn new_passes(s: Seq<Pillar>, cx: int) -> int
    decreases s.len(),
{
    if s.len() == 0 {
        0
    } else {
        new_passes(s.drop_last(), cx) + if !s.last().passed_bee && s.last().x > cx {
            1int
        } else {
            0int
        }
    }
}

/// A prefix of a frame never scores more than the whole frame.
proof fn lemma_new_passes_prefix(s: Seq<Pillar>, cx: int, i: int)
    requires
        0 <= i <= s.len(),
    ensures
        new_passes(s.subrange(0, i), cx) <= new_passes(s, cx),
        new_passes(s.subrange(0, i), cx) >= 0,
    decreases s.len() - i,
{
    lemma_new_passes_nonneg(s.subrange(0, i), cx);
    if i == s.len() {
        assert(s.subrange(0, i) =~= s);
    } else {
        assert(s.subrange(0, i + 1).drop_last() =~= s.subrange(0, i));
        lemma_new_passes_prefix(s, cx, i + 1);
    }
}

/// A frame's score gain is never negative.
proof fn lemma_new_passes_nonneg(s: Seq<Pillar>, cx: int)
    ensures
        new_passes(s, cx) >= 0,
    decreases s.len(),
{
    if s.len() > 0 {
        lemma_new_passes_nonneg(s.drop_last(), cx);
    }
}

/// Scoring settles in one frame: after every pillar is marked against the
/// bee's station `cx`, a second pass against the same station scores
/// nothing, so no pillar is ever counted twice.
pub proof fn lemma_scoring_settles(s: Seq<Pillar>, cx: int)
    ensures
        new_passes(s.map_values(|p: Pillar| pass_mark(p, cx)), cx) == 0,
    decreases s.len(),
{
    let m = s.map_values(|p: Pillar| pass_mark(p, cx));
    if s.len() > 0 {
        assert(m.drop_last() =~= s.drop_last().map_values(|p: Pillar| pass_mark(p, cx)));
        lemma_scoring_settles(s.drop_last(), cx);
        assert(m.last() == pass_mark(s.last(), cx));
    }
}

/// One frame of scoring: every pillar whose position has passed the bee's
/// station `cx` and had not scored yet is marked and adds one point.
pub fn pillar_score(pillars: &mut Vec<Pillar>, info: &mut GameInfo, cx: i64)
    requires
        old(info).score + new_passes(old(pillars)@, cx as int) <= u32::MAX,
    ensures
        final(pillars)@.len() == old(pillars)@.len(),
        forall|i: int|
            0 <= i < old(pillars)@.len() ==> final(pillars)@[i] == pass_mark(
                #[trigger] old(pillars)@[i],
                cx as int,
            ),
        final(info).score == old(info).score + new_passes(old(pillars)@, cx as int),
        final(info).is_dead == old(info).is_dead,
{
    let ghost orig = pillars@;
    let mut out: Vec<Pillar> = Vec::new();
    let n = pillars.len();
    let mut i: usize = 0;
    while i < n
        invariant
            n == orig.len(),
            pillars@ == orig,
            0 <= i <= n,
            out@.len() == i,
            forall|k: int| 0 <= k < i ==> out@[k] == pass_mark(#[trigger] orig[k], cx as int),
            info.score == old(info).score + new_passes(orig.subrange(0, i as int), cx as int),
            info.is_dead == old(info).is_dead,
            old(info).score + new_passes(orig, cx as int) <= u32::MAX,
        decreases n - i,
    {
        proof {
            assert(orig.subrange(0, i + 1 as int).drop_last() =~= orig.subrange(0, i as int));
            assert(orig.subrange(0, i + 1 as int).last() == orig[i as int]);
            lemma_new_passes_prefix(orig, cx as int, i + 1 as int);
            lemma_new_passes_prefix(orig, cx as int, i as int);
        }
        let p = pillars[i];
        if !p.passed_bee && p.x > cx {
            info.score = info.score + 1;
            out.push(Pillar { passed_bee: true, ..p });
        } else {
            out.push(p);
        }
        i += 1;
    }
    proof {
        assert(orig.subrange(0, n as int) =~= orig);
    }
    *pillars = out;
}

/// One frame of scoring for a single pillar: if its position has passed the
/// bee's station `cx` and it had not scored yet, mark it and add one point.
pub fn score_one(p: &mut Pillar, info: &mut GameInfo, cx: i64)
    requires
        (!old(p).passed_bee && old(p).x > cx) ==> old(info).score < u32::MAX,
    ensures
        *final(p) == pass_mark(*old(p), cx as int),
        final(info).score == old(info).score + if !old(p).passed_bee && old(p).x > cx {
            1int
        } else {
            0int
        },
        final(info).is_dead == old(info).is_dead,
{
    if !p.passed_bee && p.x > cx {
        p.passed_bee = true;
        info.score = info.score + 1;
    }
}

/// The collider every pillar carries, in its local coordinates: one box for
/// the half above the gap and one for the half below, each a pillar's width
/// wide and reaching far past the screen.
pub fn pillar_collider() -> (c: Collider)
    ensures
        c.colliders@.len() == 2,
        c.colliders@[0] == (Aabb {
            l: (-PILLAR_HALF_WIDTH) as i64,
            r: PILLAR_HALF_WIDTH,
            t: PILLAR_REACH,
            b: GAP_TOP,
        }),
        c.colliders@[1] == (Aabb {
            l: (-PILLAR_HALF_WIDTH) as i64,
            r: PILLAR_HALF_WIDTH,
            t: GAP_BOTTOM,
            b: (-PILLAR_REACH) as i64,
        }),
        c.wf(),
{
    let upper = Aabb::new(-PILLAR_HALF_WIDTH, PILLAR_HALF_WIDTH, PILLAR_REACH, GAP_TOP);
    let lower = Aabb::new(-PILLAR_HALF_WIDTH, PILLAR_HALF_WIDTH, GAP_BOTTOM, -PILLAR_REACH);
    let mut boxes: Vec<Aabb> = Vec::new();
    boxes.push(upper);
    boxes.push(lower);
    Collider::new(boxes)
}

} // verus!
