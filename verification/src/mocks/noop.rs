//! A no-op / identity contract mock.
//!
//! The simplest possible cross-contract call target: `echo` returns its
//! argument unchanged and `ping` does nothing.

use vstd::prelude::*;

verus! {

/// A no-op / identity call target. It has no state.
pub struct MockNoop;

impl MockNoop {
    /// Return `val` unchanged.
    pub fn echo(&self, val: i128) -> (r: i128)
        ensures
            r == val,
    {
        val
    }

    /// Do nothing. Useful as a trivial invocation target.
    pub fn ping(&self) {
    }
}

} // verus!
