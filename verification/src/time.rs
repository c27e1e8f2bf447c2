//! Instants and durations, measured in milliseconds since the Unix epoch.
//!
//! The pipeline never reads a clock itself: the surrounding tasks hand it the
//! current instant, so that tests can drive cycles deterministically.

use vstd::prelude::*;

verus! {

/// Adds a non-negative number of milliseconds to an instant, saturating at the
/// largest representable instant instead of overflowing.
pub fn add_clamped(now: i64, delta: i64) -> (r: i64)
    requires
        0 <= delta,
    ensures
        r == spec_add_clamped(now, delta),
{
    if now > i64::MAX - delta {
        i64::MAX
    } else {
        now + delta
    }
}

/// The saturating sum that `add_clamped` computes.
pub open spec fn spec_add_clamped(now: i64, delta: i64) -> i64 {
    if now + delta > i64::MAX {
        i64::MAX
    } else {
        (now + delta) as i64
    }
}

/// The smaller of two instants.
pub fn min_instant(a: i64, b: i64) -> (r: i64)
    ensures
        r == spec_min_instant(a, b),
{
    if a < b {
        a
    } else {
        b
    }
}

/// The smaller of two instants, as a specification.
pub open spec fn spec_min_instant(a: i64, b: i64) -> i64 {
    if a < b {
        a
    } else {
        b
    }
}

} // verus!
