//! A stateful counter contract mock.
//!
//! The canonical fixture for testing storage persistence across invocations:
//! `increment` bumps a stored `u32` and returns the new value, `get` reads it,
//! and `reset` clears it back to zero. Before the first increment the count
//! reads as `0`.

use vstd::prelude::*;

verus! {

/// A stateful counter.
pub struct MockCounter {
    count: u32,
}

impl View for MockCounter {
    type V = u32;

    open spec fn view(&self) -> u32 {
        self.count_view()
    }
}

impl MockCounter {
    /// The stored count.
    pub closed spec fn count_view(&self) -> u32 {
        self.count
    }

    /// A freshly registered counter, reading `0`.
    pub fn new() -> (c: MockCounter)
        ensures
            c@ == 0,
    {
        MockCounter { count: 0 }
    }

    /// A counter whose stored count is `count`; used to bring the stored
    /// value into the model.
    pub fn from_count(count: u32) -> (c: MockCounter)
        ensures
            c@ == count,
    {
        MockCounter { count }
    }

    /// Increment the stored count and return the new value. At `u32::MAX`
    /// the increment would overflow: it fails with `None` and the count is
    /// unchanged.
    pub fn increment(&mut self) -> (r: Option<u32>)
        ensures
            old(self)@ < u32::MAX ==> final(self)@ == old(self)@ + 1 && r == Some(final(self)@),
            old(self)@ == u32::MAX ==> final(self)@ == old(self)@ && r is None,
    {
        match self.count.checked_add(1) {
            None => None,
            Some(next) => {
                self.count = next;
                Some(next)
            },
        }
    }

    /// Read the current count. Returns `0` before the first increment.
    pub fn get(&self) -> (r: u32)
        ensures
            r == self@,
    {
        self.count
    }

    /// Reset the count back to zero.
    pub fn reset(&mut self)
        ensures
            final(self)@ == 0,
    {
        self.count = 0;
    }
}

} // verus!
