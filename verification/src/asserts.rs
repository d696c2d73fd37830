//! Assertion helpers for contract tests.

pub mod addr_eq;
pub mod address_set;
pub mod approx_i64;
pub mod approx_u128;
pub mod balances;
pub mod events;
pub mod map_contains;
pub mod sorted;
pub mod vec_unordered;
pub mod within_pct;
pub mod zeroness;

use vstd::prelude::*;

verus! {

/// Distance between two integers.
pub open spec fn distance(a: int, b: int) -> int {
    if a >= b {
        a - b
    } else {
        b - a
    }
}

/// The distance between two `i128` values, exactly; it always fits in a
/// `u128`.
pub fn distance_i128(a: i128, b: i128) -> (d: u128)
    ensures
        d == distance(a as int, b as int),
{
    let (hi, lo) = if a >= b {
        (a, b)
    } else {
        (b, a)
    };
    if lo >= 0 || hi < 0 {
        (hi - lo) as u128
    } else {
        // hi >= 0 > lo: the distance is hi + |lo| = hi + (-(lo + 1)) + 1.
        let below: i128 = -(lo + 1);
        hi as u128 + below as u128 + 1
    }
}

/// Returns `true` when `a` and `b` differ by no more than `tolerance`.
///
/// Useful for liquidity / fee math where rounding makes exact equality
/// impractical. `tolerance` is an absolute value in the same units as the
/// inputs; a negative tolerance accepts nothing. Every pair of inputs is
/// answered, however far apart.
pub fn approx_eq(a: i128, b: i128, tolerance: i128) -> (r: bool)
    ensures
        r == (distance(a as int, b as int) <= tolerance),
{
    if tolerance < 0 {
        false
    } else {
        distance_i128(a, b) <= tolerance as u128
    }
}

/// Two values were further apart than the tolerance; `difference` is their
/// distance.
#[derive(Debug, PartialEq, Eq)]
pub struct NotApprox<T> {
    pub difference: T,
}

/// Checks that two `i128` values are within `tolerance` of each other; on
/// failure reports their distance, which always fits in a `u128`.
pub fn assert_approx_eq(a: i128, b: i128, tolerance: i128) -> (r: Result<(), NotApprox<u128>>)
    ensures
        r is Ok <==> distance(a as int, b as int) <= tolerance,
        r matches Err(e) ==> e.difference == distance(a as int, b as int),
{
    if approx_eq(a, b, tolerance) {
        Ok(())
    } else {
        Err(NotApprox { difference: distance_i128(a, b) })
    }
}

/// Law: approximate equality is symmetric, accepts equal values for every
/// non-negative tolerance, and never rejects a pair that a smaller tolerance
/// accepted.
pub proof fn law_approx_eq(a: int, b: int, tolerance: int, wider: int)
    ensures
        distance(a, b) == distance(b, a),
        tolerance >= 0 ==> distance(a, a) <= tolerance,
        distance(a, b) <= tolerance && tolerance <= wider ==> distance(a, b) <= wider,
{
}

/// Law: the tolerance bounds the plain difference in both directions: `a`
/// and `b` are within `tolerance` exactly when neither `a - b` nor `b - a`
/// exceeds it. The distance is one of those two differences and is never
/// negative.
pub proof fn law_approx_eq_bounds_the_difference(a: int, b: int, tolerance: int)
    ensures
        distance(a, b) <= tolerance <==> (a - b <= tolerance && b - a <= tolerance),
        distance(a, b) >= 0,
        distance(a, b) == a - b || distance(a, b) == b - a,
{
}

} // verus!
