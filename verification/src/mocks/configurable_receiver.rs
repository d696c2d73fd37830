//! A call target whose return value is configured ahead of time.
//!
//! Lets a caller test how it handles an arbitrary downstream response:
//! `set_return(val)` stores a value and `call()` returns it. Before any
//! `set_return`, `call` returns `0`.

use vstd::prelude::*;

verus! {

/// A call target with a configurable return value.
pub struct MockConfigurableReceiver {
    configured: Option<i128>,
}

impl View for MockConfigurableReceiver {
    type V = Option<i128>;

    open spec fn view(&self) -> Option<i128> {
        self.configured_view()
    }
}

impl MockConfigurableReceiver {
    /// The configured return value, if one was set.
    pub closed spec fn configured_view(&self) -> Option<i128> {
        self.configured
    }

    /// A freshly registered receiver with nothing configured.
    pub fn new() -> (r: MockConfigurableReceiver)
        ensures
            r@ is None,
    {
        MockConfigurableReceiver { configured: None }
    }

    /// Configure the value `call` will return.
    pub fn set_return(&mut self, val: i128)
        ensures
            final(self)@ == Some(val),
    {
        self.configured = Some(val);
    }

    /// Return the configured value, or `0` if none was set.
    pub fn call(&self) -> (r: i128)
        ensures
            r == match self@ {
                Some(v) => v,
                None => 0,
            },
    {
        match self.configured {
            Some(v) => v,
            None => 0,
        }
    }
}

} // verus!
