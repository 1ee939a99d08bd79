//! Cross-thread delivery, seen from the producer's side: each event is
//! handed to the consumer's handler one at a time, in order, and a failure
//! the handler signals for one event is isolated to that event — every later
//! event of the batch is still handed over.

use vstd::prelude::*;

use crate::event::Event;

verus! {

/// The consumer's handler. The run-loop thread is the only caller: it hands
/// over one event at a time and blocks until the handler returns, so handler
/// invocations are never concurrent. Returning `false` signals a
/// consumer-side failure for that one event.
pub trait EventSink {
    fn on_event(&mut self, event: &Event) -> bool;
}

/// How the delivery of one event ended.
#[derive(Debug, Clone, Copy, PartialEq, Eq, Structural)]
pub enum DeliveryOutcome {
    /// The consumer's handler returned without signaling failure.
    Accepted,
    /// The consumer's handler signaled failure for this event alone.
    ConsumerError,
}

/// The record of one delivery attempt: which event, and how it ended.
#[derive(Debug, Clone, Copy, PartialEq, Eq, Structural)]
pub struct DeliveryRecord {
    pub event_id: i64,
    pub outcome: DeliveryOutcome,
}

/// Hands every event of the batch to the sink, in batch order, and records
/// each attempt: the record at position `i` is about the event at position
/// `i`, whatever the sink answered for the events before it. A consumer
/// failure is thus isolated to its own event and stops nothing.
pub fn deliver_batch<S: EventSink>(sink: &mut S, events: &Vec<Event>) -> (report: Vec<
    DeliveryRecord,
>)
    ensures
        report@.len() == events@.len(),
        forall|i: int| 0 <= i < events@.len() ==> (#[trigger] report@[i]).event_id == events@[i].event_id,
{
    let mut report: Vec<DeliveryRecord> = Vec::new();
    let mut i: usize = 0;
    while i < events.len()
        invariant
            i <= events@.len(),
            report@.len() == i,
            forall|j: int| 0 <= j < i ==> (#[trigger] report@[j]).event_id == events@[j].event_id,
        decreases events@.len() - i,
    {
        let accepted = sink.on_event(&events[i]);
        let outcome = if accepted {
            DeliveryOutcome::Accepted
        } else {
            DeliveryOutcome::ConsumerError
        };
        report.push(DeliveryRecord { event_id: events[i].event_id, outcome });
        i += 1;
    }
    report
}

} // verus!
