//! Axis-aligned collision geometry.
//!
//! A collider is a set of axis-aligned boxes given in an entity's local
//! coordinates; a transform (translation plus a uniform positive scale)
//! carries them into world coordinates. Two boxes overlap exactly when each
//! one's minimum coordinate lies strictly below the other's maximum
//! coordinate on both axes.

use vstd::prelude::*;

use crate::units::{div_trunc, scale_milli, COORD_LIMIT, MILLI, SCALE_LIMIT};

verus! {

/// A translation and a uniform scale, both in milliunits.
#[derive(Clone, Copy, Debug, PartialEq, Eq, Structural)]
pub struct Transform2 {
    pub x: i64,
    pub y: i64,
    pub scale: i64,
}

impl Transform2 {
    /// The transform keeps its translation on the board and its scale
    /// positive and bounded.
    pub open spec fn wf(self) -> bool {
        &&& -COORD_LIMIT <= self.x <= COORD_LIMIT
        &&& -COORD_LIMIT <= self.y <= COORD_LIMIT
        &&& 0 < self.scale <= SCALE_LIMIT
    }

    /// The world x coordinate of a local x coordinate.
    pub open spec fn world_x(self, v: int) -> int {
        self.x + div_trunc(self.scale * v, MILLI as int)
    }

    /// The world y coordinate of a local y coordinate.
    pub open spec fn world_y(self, v: int) -> int {
        self.y + div_trunc(self.scale * v, MILLI as int)
    }

    pub fn new(x: i64, y: i64, scale: i64) -> (t: Transform2)
        requires
            -COORD_LIMIT <= x <= COORD_LIMIT,
            -COORD_LIMIT <= y <= COORD_LIMIT,
            0 < scale <= SCALE_LIMIT,
        ensures
            t == (Transform2 { x, y, scale }),
            t.wf(),
    {
        Transform2 { x, y, scale }
    }

    /// Carry a local x coordinate into world coordinates.
    pub fn apply_x(&self, v: i64) -> (r: i64)
        requires
            self.wf(),
            -COORD_LIMIT <= v <= COORD_LIMIT,
        ensures
            r == self.world_x(v as int),
    {
        self.x + scale_milli(self.scale, v)
    }

    /// Carry a local y coordinate into world coordinates.
    pub fn apply_y(&self, v: i64) -> (r: i64)
        requires
            self.wf(),
            -COORD_LIMIT <= v <= COORD_LIMIT,
        ensures
            r == self.world_y(v as int),
    {
        self.y + scale_milli(self.scale, v)
    }
}

/// An axis-aligned box in local milliunit coordinates:
/// left and right edges, top and bottom edges.
#[derive(Clone, Copy, Debug, PartialEq, Eq, Structural)]
pub struct Aabb {
    pub l: i64,
    pub r: i64,
    pub t: i64,
    pub b: i64,
}

/// Two boxes under their transforms overlap: on both axes, each box's
/// minimum world coordinate lies strictly below the other's maximum.
pub open spec fn touching(a: Aabb, a_t: Transform2, b: Aabb, b_t: Transform2) -> bool {
    &&& a_t.world_x(a.l as int) < b_t.world_x(b.r as int)
    &&& a_t.world_x(a.r as int) > b_t.world_x(b.l as int)
    &&& a_t.world_y(a.b as int) < b_t.world_y(b.t as int)
    &&& a_t.world_y(a.t as int) > b_t.world_y(b.b as int)
}

impl Aabb {
    /// The box's edges are ordered and stay on the board.
    pub open spec fn wf(self) -> bool {
        &&& -COORD_LIMIT <= self.l <= self.r <= COORD_LIMIT
        &&& -COORD_LIMIT <= self.b <= self.t <= COORD_LIMIT
    }

    pub fn new(l: i64, r: i64, t: i64, b: i64) -> (a: Aabb)
        requires
            -COORD_LIMIT <= l <= r <= COORD_LIMIT,
            -COORD_LIMIT <= b <= t <= COORD_LIMIT,
        ensures
            a == (Aabb { l, r, t, b }),
            a.wf(),
    {
        Aabb { l, r, t, b }
    }

    /// Whether this box, placed by `self_t`, overlaps `other` placed by
    /// `other_t`.
    pub fn is_touching(&self, self_t: &Transform2, other: &Aabb, other_t: &Transform2) -> (r:
        bool)
        requires
            self.wf(),
            other.wf(),
            self_t.wf(),
            other_t.wf(),
        ensures
            r == touching(*self, *self_t, *other, *other_t),
    {
        let self_left = self_t.apply_x(self.l);
        let self_right = self_t.apply_x(self.r);
        let self_top = self_t.apply_y(self.t);
        let self_bottom = self_t.apply_y(self.b);
        let other_left = other_t.apply_x(other.l);
        let other_right = other_t.apply_x(other.r);
        let other_top = other_t.apply_y(other.t);
        let other_bottom = other_t.apply_y(other.b);

        self_left < other_right && self_right > other_left && self_bottom < other_top && self_top
            > other_bottom
    }

    /// The box's four corners in world coordinates, in reading order:
    /// top left, top right, bottom right, bottom left.
    pub fn world_corners(&self, t: &Transform2) -> (c: [(i64, i64); 4])
        requires
            self.wf(),
            t.wf(),
        ensures
            c[0].0 == t.world_x(self.l as int) && c[0].1 == t.world_y(self.t as int),
            c[1].0 == t.world_x(self.r as int) && c[1].1 == t.world_y(self.t as int),
            c[2].0 == t.world_x(self.r as int) && c[2].1 == t.world_y(self.b as int),
            c[3].0 == t.world_x(self.l as int) && c[3].1 == t.world_y(self.b as int),
    {
        let left = t.apply_x(self.l);
        let right = t.apply_x(self.r);
        let top = t.apply_y(self.t);
        let bottom = t.apply_y(self.b);
        [(left, top), (right, top), (right, bottom), (left, bottom)]
    }
}

/// Two colliders under their transforms overlap: some box of the first
/// touches some box of the second.
pub open spec fn colliders_touching(
    a: Collider,
    a_t: Transform2,
    b: Collider,
    b_t: Transform2,
) -> bool {
    exists|i: int, j: int|
        0 <= i < a.colliders@.len() && 0 <= j < b.colliders@.len() && touching(
            a.colliders@[i],
            a_t,
            b.colliders@[j],
            b_t,
        )
}

/// A set of axis-aligned boxes that together outline one entity.
#[derive(Clone, Debug)]
pub struct Collider {
    pub colliders: Vec<Aabb>,
}

impl Collider {
    /// Every box of the collider is well formed.
    pub open spec fn wf(self) -> bool {
        forall|i: int| 0 <= i < self.colliders@.len() ==> self.colliders@[i].wf()
    }

    pub fn new(colliders: Vec<Aabb>) -> (c: Collider)
        requires
            forall|i: int| 0 <= i < colliders@.len() ==> colliders@[i].wf(),
        ensures
            c.colliders == colliders,
            c.wf(),
    {
        Collider { colliders }
    }

    /// Whether any box of this collider overlaps any box of the other.
    pub fn is_touching(&self, self_t: &Transform2, other: &Collider, other_t: &Transform2) -> (r:
        bool)
        requires
            self.wf(),
            other.wf(),
            self_t.wf(),
            other_t.wf(),
        ensures
            r == colliders_touching(*self, *self_t, *other, *other_t),
    {
        let n = self.colliders.len();
        let m = other.colliders.len();
        let mut i: usize = 0;
        while i < n
            invariant
                n == self.colliders@.len(),
                m == other.colliders@.len(),
                0 <= i <= n,
                self.wf(),
                other.wf(),
                self_t.wf(),
                other_t.wf(),
                forall|a: int, b: int|
                    0 <= a < i && 0 <= b < m ==> !touching(
                        self.colliders@[a],
                        *self_t,
                        other.colliders@[b],
                        *other_t,
                    ),
            decreases n - i,
        {
            let mut j: usize = 0;
            while j < m
                invariant
                    n == self.colliders@.len(),
                    m == other.colliders@.len(),
                    0 <= i < n,
                    0 <= j <= m,
                    self.wf(),
                    other.wf(),
                    self_t.wf(),
                    other_t.wf(),
                    forall|b: int|
                        0 <= b < j ==> !touching(
                            self.colliders@[i as int],
                            *self_t,
                            other.colliders@[b],
                            *other_t,
                        ),
                decreases m - j,
            {
                if self.colliders[i].is_touching(self_t, &other.colliders[j], other_t) {
                    return true;
                }
                j += 1;
            }
            i += 1;
        }
        false
    }
}

/// Overlap of two placed boxes does not depend on which box is named first.
pub proof fn lemma_touching_symmetric(a: Aabb, a_t: Transform2, b: Aabb, b_t: Transform2)
    ensures
        touching(a, a_t, b, b_t) == touching(b, b_t, a, a_t),
{
}

} // verus!
