//! Bounded fixed-point stat arithmetic.
//!
//! Every stat is an unsigned value scaled by 100 and held in `[0, MAX_STAT]`.
//! All mutation goes through a single saturating add/subtract.

use vstd::prelude::*;

verus! {

/// Upper bound of every stat, in the x100 fixed-point scale (100.00).
pub const MAX_STAT: u16 = 10000;

/// What `clamp_add` returns: add `delta` to `v`, saturating at `MAX_STAT`
/// above and at `0` below. Total over all inputs, so that records decoded
/// from arbitrary bytes can still be pushed through the arithmetic.
pub open spec fn clamp_add_spec(v: u16, delta: i32) -> u16 {
    if delta >= 0 {
        if v + delta > MAX_STAT {
            MAX_STAT
        } else {
            (v + delta) as u16
        }
    } else {
        if -(delta as int) >= v {
            0u16
        } else {
            (v - -(delta as int)) as u16
        }
    }
}

/// Saturating stat update: never wraps, never panics, never leaves
/// `[0, MAX_STAT]` when `v` starts inside it.
pub fn clamp_add(v: u16, delta: i32) -> (r: u16)
    ensures
        r == clamp_add_spec(v, delta),
{
    if delta >= 0 {
        let sum: i64 = v as i64 + delta as i64;
        if sum > MAX_STAT as i64 {
            MAX_STAT
        } else {
            sum as u16
        }
    } else {
        let mag: i64 = -(delta as i64);
        if mag >= v as i64 {
            0
        } else {
            (v as i64 - mag) as u16
        }
    }
}

/// For every starting value inside the bounds and every delta, the result
/// stays inside the bounds, and a zero delta changes nothing.
pub proof fn lemma_clamp_add_in_range(v: u16, delta: i32)
    requires
        v <= MAX_STAT,
    ensures
        clamp_add_spec(v, delta) <= MAX_STAT,
        clamp_add_spec(v, 0) == v,
{
}

} // verus!
