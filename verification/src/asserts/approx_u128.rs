//! Unsigned-width approximate equality, mirroring
//! [`approx_eq`](crate::asserts::approx_eq) for `u128`.
//!
//! The larger-minus-smaller difference is taken, so it never underflows and
//! every pair of inputs is accepted.

use vstd::prelude::*;
use crate::asserts::{distance, NotApprox};

verus! {

/// Returns `true` when `a` and `b` differ by no more than `tolerance` (`u128`).
pub fn approx_eq_u128(a: u128, b: u128, tolerance: u128) -> (r: bool)
    ensures
        r == (distance(a as int, b as int) <= tolerance),
{
    let diff = if a >= b {
        a - b
    } else {
        b - a
    };
    diff <= tolerance
}

/// Checks that two `u128` values are within `tolerance` of each other; on
/// failure reports their distance.
pub fn assert_approx_eq_u128(a: u128, b: u128, tolerance: u128) -> (r: Result<(), NotApprox<u128>>)
    ensures
        r is Ok <==> distance(a as int, b as int) <= tolerance,
        r matches Err(e) ==> e.difference == distance(a as int, b as int),
{
    if approx_eq_u128(a, b, tolerance) {
        Ok(())
    } else {
        let difference = if a >= b {
            a - b
        } else {
            b - a
        };
        Err(NotApprox { difference })
    }
}

} // verus!
