//! A contract mock that emits a configurable event on demand.
//!
//! The published event has a single-element topic list `[topic]` and the
//! `i128` `data` value as its data.

use vstd::prelude::*;
use crate::address::{Address, Symbol};
use crate::events::{lemma_vals_view, vals_view, EventLog, EventView, Val, ValView};

verus! {

/// An event emitter. It has no state of its own: events go to the
/// environment's [`EventLog`], under the emitter's contract address.
pub struct MockEventEmitter;

impl MockEventEmitter {
    /// Publish, as contract `contract_id`, an event with topics `[topic]` and
    /// data `data`.
    pub fn emit(&self, log: &mut EventLog, contract_id: &Address, topic: &Symbol, data: i128)
        ensures
            final(log)@ == old(log)@.push(
                EventView {
                    contract_id: contract_id@,
                    topics: seq![ValView::Symbol(topic@)],
                    data: ValView::I128(data),
                },
            ),
    {
        let mut topics: Vec<Val> = Vec::new();
        topics.push(Val::Symbol(topic.duplicate()));
        proof {
            lemma_vals_view(topics@);
            assert(vals_view(topics@) =~= seq![ValView::Symbol(topic@)]);
        }
        log.publish(contract_id, topics, Val::I128(data));
    }
}

} // verus!
