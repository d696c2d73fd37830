//! Percentage (basis-point) tolerance, with integer-only math.
//!
//! `actual` is within tolerance of `expected` when
//! `|actual - expected| * 10_000 <= |expected| * bps`. When `expected == 0`,
//! only `actual == 0` is within tolerance.

use vstd::prelude::*;
use crate::asserts::distance;

verus! {

/// Denominator for basis-point math (100% == 10_000 bps).
pub const BPS_DENOMINATOR: i128 = 10_000;

/// Absolute value of an integer.
pub open spec fn magnitude(x: int) -> int {
    if x >= 0 {
        x
    } else {
        -x
    }
}

/// The comparison `within_pct` decides: the deviation, scaled to basis
/// points, is at most `bps` basis points of `|expected|`.
pub open spec fn within_pct_spec(actual: int, expected: int, bps: int) -> bool {
    distance(actual, expected) * 10_000 <= magnitude(expected) * bps
}

/// The inputs on which every intermediate value of `within_pct` fits in an
/// `i128`.
pub open spec fn within_pct_fits(actual: int, expected: int, bps: int) -> bool {
    &&& distance(actual, expected) * 10_000 <= i128::MAX
    &&& i128::MIN < expected
    &&& i128::MIN <= magnitude(expected) * bps <= i128::MAX
}

/// Returns `true` when `actual` is within `bps` basis points of `expected`,
/// using integer cross-multiplication (no floats). A zero expectation is
/// answered for every `actual` and `bps`: only `actual == 0` matches it.
pub fn within_pct(actual: i128, expected: i128, bps: i128) -> (r: bool)
    requires
        expected == 0 || within_pct_fits(actual as int, expected as int, bps as int),
    ensures
        r == within_pct_spec(actual as int, expected as int, bps as int),
{
    if expected == 0 {
        proof {
            law_zero_expected_only_matches_zero(actual as int, bps as int);
        }
        return actual == 0;
    }
    let diff = if actual >= expected {
        actual - expected
    } else {
        expected - actual
    };
    let abs_expected = if expected >= 0 {
        expected
    } else {
        -expected
    };
    diff * BPS_DENOMINATOR <= abs_expected * bps
}

/// `actual` was not within the given basis points of `expected`.
#[derive(Debug, Clone, Copy, PartialEq, Eq, Structural)]
pub struct NotWithinPct;

/// Checks that `actual` is within `bps` basis points of `expected`.
pub fn assert_within_pct(actual: i128, expected: i128, bps: i128) -> (r: Result<(), NotWithinPct>)
    requires
        expected == 0 || within_pct_fits(actual as int, expected as int, bps as int),
    ensures
        r is Ok <==> within_pct_spec(actual as int, expected as int, bps as int),
{
    if within_pct(actual, expected, bps) {
        Ok(())
    } else {
        Err(NotWithinPct)
    }
}

/// Law: when `expected == 0`, only `actual == 0` is within tolerance, for
/// every `bps`.
pub proof fn law_zero_expected_only_matches_zero(actual: int, bps: int)
    ensures
        within_pct_spec(actual, 0, bps) <==> actual == 0,
{
    assert(magnitude(0) == 0);
    assert(0 * bps == 0) by (nonlinear_arith);
}

/// Law: widening the tolerance never rejects a value that was accepted.
pub proof fn law_within_pct_monotone(actual: int, expected: int, bps: int, wider: int)
    requires
        bps <= wider,
        within_pct_spec(actual, expected, bps),
    ensures
        within_pct_spec(actual, expected, wider),
{
    let m = magnitude(expected);
    assert(m * bps <= m * wider) by (nonlinear_arith)
        requires
            m >= 0,
            bps <= wider,
    ;
}

/// Law: the deviation is the plain difference `actual - expected`, in either
/// direction: `actual` is within `bps` basis points of `expected` exactly when
/// both `actual - expected` and `expected - actual`, scaled by `10_000`, are
/// at most `bps` basis points of `|expected|`.
pub proof fn law_within_pct_bounds_the_difference(actual: int, expected: int, bps: int)
    ensures
        within_pct_spec(actual, expected, bps) <==> ({
            let allowed = (if expected >= 0 {
                expected
            } else {
                -expected
            }) * bps;
            &&& (actual - expected) * 10_000 <= allowed
            &&& (expected - actual) * 10_000 <= allowed
        }),
{
}

/// Law: a value on the other side of zero from a non-zero expectation (or
/// zero itself) is at least `|expected|` away from it, so it is never within
/// a tolerance below 100% (`10_000` basis points).
pub proof fn law_opposite_sign_is_outside_tolerance(actual: int, expected: int, bps: int)
    requires
        expected != 0,
        expected > 0 ==> actual <= 0,
        expected < 0 ==> actual >= 0,
        bps < 10_000,
    ensures
        !within_pct_spec(actual, expected, bps),
{
    let m = magnitude(expected);
    let d = distance(actual, expected);
    assert(d >= m);
    assert(d * 10_000 >= m * 10_000) by (nonlinear_arith)
        requires
            d >= m,
    ;
    assert(m * 10_000 > m * bps) by (nonlinear_arith)
        requires
            m > 0,
            bps < 10_000,
    ;
}

} // verus!
