//! Stand-in contracts, each an executable state machine.

pub mod allowance;
pub mod allowance_token;
pub mod book;
pub mod burnable_token;
pub mod configurable_receiver;
pub mod counter;
pub mod event_emitter;
pub mod decimals_token;
pub mod fee_token;
pub mod ledger;
pub mod noop;
pub mod oracle;
pub mod panic_on_call;
pub mod sac;
pub mod token;
