//! Testing infrastructure for Soroban smart contracts: assertion predicates and
//! stand-in ("mock") contracts, each stated and proved as an executable model.
//!
//! The assertion helpers are pure predicates over plain values. The mocks are
//! state machines: every contract method is a transition from the contract's
//! stored state (plus the set of addresses that authorized the call) to a new
//! state or to the error the contract call fails with. A failed call leaves the
//! state unchanged, as a failed invocation does on the host.

pub mod address;
pub mod asserts;
pub mod events;
pub mod mocks;
