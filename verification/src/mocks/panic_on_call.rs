//! A contract mock whose method always fails.
//!
//! Use this as a failing dependency to verify how a caller handles a
//! downstream abort. The failure carries the exact message
//! [`PANIC_MESSAGE`], so callers can match on it.

use vstd::prelude::*;

verus! {

/// The exact message `call` fails with.
pub const PANIC_MESSAGE: &'static str = "MockPanicOnCall: intentional failure";

/// The failure of [`MockPanicOnCall::call`].
#[derive(Debug, Clone, Copy, PartialEq, Eq, Structural)]
pub struct IntentionalFailure;

impl IntentionalFailure {
    /// The message of this failure: [`PANIC_MESSAGE`].
    pub fn message(&self) -> (r: &'static str)
        ensures
            r@ == PANIC_MESSAGE@,
    {
        PANIC_MESSAGE
    }
}

/// A call target that always fails. It has no state.
pub struct MockPanicOnCall;

impl MockPanicOnCall {
    /// Always fails with [`IntentionalFailure`].
    pub fn call(&self) -> (r: Result<(), IntentionalFailure>)
        ensures
            r == Err::<(), IntentionalFailure>(IntentionalFailure),
    {
        Err(IntentionalFailure)
    }
}

} // verus!
