//! Fixed-point arithmetic helpers.
//!
//! World coordinates are i64 milliunits: 1000 milliunits make one world unit.
//! Scales are milliunits too (a scale of 1.0 is stored as 1000). Multiplying
//! a scale by a coordinate therefore divides the product by 1000, truncating
//! toward zero as floating-point conversion to integers would.

use vstd::prelude::*;

verus! {

/// Milliunits in one world unit.
pub const MILLI: i64 = 1000;

/// Largest magnitude a world coordinate may take (about a million units).
pub const COORD_LIMIT: i64 = 1_073_741_824;

/// Largest scale factor a transform may carry (a hundredfold).
pub const SCALE_LIMIT: i64 = 100_000;

/// Integer division truncating toward zero, for a positive divisor.
pub open spec fn div_trunc(a: int, d: int) -> int
    recommends
        d > 0,
{
    if a >= 0 {
        a / d
    } else {
        -((-a) / d)
    }
}

/// A value forced into the closed interval [lo, hi].
pub open spec fn clamp_spec(v: int, lo: int, hi: int) -> int
    recommends
        lo <= hi,
{
    if v < lo {
        lo
    } else if v > hi {
        hi
    } else {
        v
    }
}

/// Force `v` into the closed interval [lo, hi].
pub fn clamp64(v: i64, lo: i64, hi: i64) -> (r: i64)
    requires
        lo <= hi,
    ensures
        r == clamp_spec(v as int, lo as int, hi as int),
{
    if v < lo {
        lo
    } else if v > hi {
        hi
    } else {
        v
    }
}

/// Apply a milliunit scale factor to a milliunit coordinate:
/// the product scaled back down by one unit, truncating toward zero.
pub fn scale_milli(s: i64, v: i64) -> (r: i64)
    requires
        0 < s <= SCALE_LIMIT,
        -COORD_LIMIT <= v <= COORD_LIMIT,
    ensures
        r == div_trunc(s * v, MILLI as int),
        -SCALE_LIMIT * COORD_LIMIT <= r <= SCALE_LIMIT * COORD_LIMIT,
{
    proof {
        assert(s * v <= SCALE_LIMIT * COORD_LIMIT && -(SCALE_LIMIT * COORD_LIMIT) <= s * v)
            by (nonlinear_arith)
            requires
                0 < s <= SCALE_LIMIT,
                -COORD_LIMIT <= v <= COORD_LIMIT,
        ;
    }
    let p: i64 = s * v;
    if p >= 0 {
        let q: i64 = p / 1000;
        proof {
            assert(0 <= p / 1000 <= p) by (nonlinear_arith)
                requires
                    p >= 0,
            ;
        }
        q
    } else {
        let q: i64 = (-p) / 1000;
        proof {
            assert(0 <= (-p) / 1000 <= -p) by (nonlinear_arith)
                requires
                    p < 0,
                    -p <= SCALE_LIMIT * COORD_LIMIT,
            ;
        }
        -q
    }
}

} // verus!
