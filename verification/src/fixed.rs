//! Fixed-point arithmetic helpers.
//!
//! A fixed-point value stores thousandths: `SCALE` units stand for one whole
//! unit, so `0.1` is `100` and `40.0` is `40_000`. Multiplying two fixed-point
//! values yields a product scaled by `SCALE * SCALE`; `div_scale` and
//! `div_scale_sq` bring such products back to fixed point with truncating
//! (round-toward-zero) division, the semantics `tdiv` captures.

use vstd::arithmetic::div_mod::{lemma_div_nonincreasing, lemma_div_pos_is_pos};
use vstd::prelude::*;

verus! {

/// Number of fixed-point units in one whole unit.
pub const SCALE: i64 = 1000;

/// Truncating (round-toward-zero) division of `a` by a positive divisor `d`.
///
/// Spec-level `/` on `int` is Euclidean division, which agrees with truncation
/// only for a non-negative dividend; this definition extends truncation to
/// negative dividends.
pub open spec fn tdiv(a: int, d: int) -> int {
    if a >= 0 {
        a / d
    } else {
        -((-a) / d)
    }
}

/// Truncating division never grows the magnitude of the dividend.
pub proof fn lemma_tdiv_bound(a: int, d: int, bound: int)
    requires
        d >= 1,
        -bound <= a <= bound,
    ensures
        -bound <= tdiv(a, d) <= bound,
{
    if a >= 0 {
        lemma_div_pos_is_pos(a, d);
        lemma_div_nonincreasing(a, d);
    } else {
        lemma_div_pos_is_pos(-a, d);
        lemma_div_nonincreasing(-a, d);
    }
}

/// Truncating division, computed through unsigned division so that the
/// executable result matches `tdiv` exactly.
pub fn div_trunc(a: i64, d: i64) -> (r: i64)
    requires
        d >= 1,
        a > i64::MIN,
    ensures
        r == tdiv(a as int, d as int),
{
    proof {
        lemma_tdiv_bound(a as int, d as int, i64::MAX as int);
    }
    if a >= 0 {
        ((a as u64) / (d as u64)) as i64
    } else {
        let m: u64 = (-a) as u64;
        -((m / (d as u64)) as i64)
    }
}

/// Scales a `SCALE * SCALE`-scaled product back to fixed point.
pub fn div_scale_sq(a: i64) -> (r: i64)
    requires
        a > i64::MIN,
    ensures
        r == tdiv(a as int, SCALE * SCALE),
{
    div_trunc(a, SCALE * SCALE)
}

/// Scales a `SCALE`-scaled product back to fixed point.
pub fn div_scale(a: i64) -> (r: i64)
    requires
        a > i64::MIN,
    ensures
        r == tdiv(a as int, SCALE as int),
{
    div_trunc(a, SCALE)
}

/// Half of a non-negative value, truncated.
pub fn half(a: i64) -> (r: i64)
    requires
        a >= 0,
    ensures
        r == a / 2,
{
    ((a as u64) / 2) as i64
}

} // verus!
