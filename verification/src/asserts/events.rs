//! An event-emission assertion.

use vstd::prelude::*;
use crate::address::Address;
use crate::events::{vals_view, EventLog, EventView, Val};

verus! {

/// No recorded event matched what [`assert_event_emitted`] looked for.
#[derive(Debug, Clone, Copy, PartialEq, Eq, Structural)]
pub struct EventNotEmitted;

/// Checks that `contract_id` published an event with exactly `topics` and
/// `data` at some point in `log`. Comparison is by value and type-aware:
/// every topic and the data must carry the type the contract published.
pub fn assert_event_emitted(log: &EventLog, contract_id: &Address, topics: &Vec<Val>, data: &Val) -> (r:
    Result<(), EventNotEmitted>)
    ensures
        r is Ok <==> log@.contains(
            EventView { contract_id: contract_id@, topics: vals_view(topics@), data: data@ },
        ),
{
    if log.contains(contract_id, topics, data) {
        Ok(())
    } else {
        Err(EventNotEmitted)
    }
}

} // verus!
