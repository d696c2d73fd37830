//! Zero / non-zero checks for `i128`: readability helpers for the very common
//! "balance must be (non)zero" check.

use vstd::prelude::*;

verus! {

/// A value was not zero.
#[derive(Debug, Clone, Copy, PartialEq, Eq, Structural)]
pub struct NotZero {
    pub value: i128,
}

/// A value was zero.
#[derive(Debug, Clone, Copy, PartialEq, Eq, Structural)]
pub struct IsZero;

/// Checks that `v` is exactly zero; on failure reports `v`.
pub fn assert_zero(v: i128) -> (r: Result<(), NotZero>)
    ensures
        r is Ok <==> v == 0,
        r matches Err(e) ==> e.value == v,
{
    if v != 0 {
        Err(NotZero { value: v })
    } else {
        Ok(())
    }
}

/// Checks that `v` is non-zero.
pub fn assert_nonzero(v: i128) -> (r: Result<(), IsZero>)
    ensures
        r is Ok <==> v != 0,
{
    if v == 0 {
        Err(IsZero)
    } else {
        Ok(())
    }
}

} // verus!
