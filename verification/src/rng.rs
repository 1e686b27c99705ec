//! Random sampling for spawn positions, drift speeds and wander targets.
//!
//! The one source of chance is the process-wide generator of the `rand`
//! crate. Nothing is assumed about which value it yields; every caller is
//! verified for all outcomes, so the contracts here state only the ranges
//! that any draw lands in.

use vstd::prelude::*;

verus! {

/// Relies on rand::random::<u64>: a fresh draw from the thread-local
/// generator. Which value comes back cannot be promised, so nothing is.
#[verifier::external_body]
fn random_u64() -> u64 {
    rand::random::<u64>()
}

/// Draw a random value from the half-open interval [lo, hi).
pub fn sample_range(lo: i64, hi: i64) -> (r: i64)
    requires
        lo < hi,
        hi - lo <= i64::MAX,
    ensures
        lo <= r < hi,
{
    let span = (hi - lo) as u64;
    let x = random_u64();
    let off = x % span;
    lo + (off as i64)
}

} // verus!
