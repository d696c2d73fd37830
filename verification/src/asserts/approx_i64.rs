//! Narrow-width approximate equality for `i64`, mirroring
//! [`approx_eq`](crate::asserts::approx_eq).

use vstd::prelude::*;
use crate::asserts::{distance, NotApprox};

verus! {

/// The distance between two `i64` values, exactly; it always fits in a
/// `u64`.
pub fn distance_i64(a: i64, b: i64) -> (d: u64)
    ensures
        d == distance(a as int, b as int),
{
    let wide: i128 = if a >= b {
        a as i128 - b as i128
    } else {
        b as i128 - a as i128
    };
    wide as u64
}

/// Returns `true` when `a` and `b` differ by no more than `tolerance` (`i64`).
/// Every pair of inputs is answered, however far apart.
pub fn approx_eq_i64(a: i64, b: i64, tolerance: i64) -> (r: bool)
    ensures
        r == (distance(a as int, b as int) <= tolerance),
{
    if tolerance < 0 {
        false
    } else {
        distance_i64(a, b) <= tolerance as u64
    }
}

/// Checks that two `i64` values are within `tolerance` of each other; on
/// failure reports their distance, which always fits in a `u64`.
pub fn assert_approx_eq_i64(a: i64, b: i64, tolerance: i64) -> (r: Result<(), NotApprox<u64>>)
    ensures
        r is Ok <==> distance(a as int, b as int) <= tolerance,
        r matches Err(e) ==> e.difference == distance(a as int, b as int),
{
    if approx_eq_i64(a, b, tolerance) {
        Ok(())
    } else {
        Err(NotApprox { difference: distance_i64(a, b) })
    }
}

} // verus!
