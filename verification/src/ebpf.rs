//! What the agent does with each record it takes from the ring buffer.

use vstd::prelude::*;
use vstd::string::*;

use crate::errors::AgentError;
use crate::events::{decodes_to, lemma_record_layout, lemma_validity, Event, EVENT_SIZE};

verus! {

/// How long the agent waits, in milliseconds, after draining the ring buffer
/// before it looks again.
pub const POLL_INTERVAL_MS: u64 = 100;

/// The local consumer reports its progress after every this many events.
pub const PROGRESS_REPORT_EVERY: u64 = 100;

/// Whether the consumer reports its progress after having handled `count`
/// events: at every multiple of `PROGRESS_REPORT_EVERY`.
pub fn is_progress_report(count: u64) -> (b: bool)
    ensures
        b == (count % PROGRESS_REPORT_EVERY == 0),
{
    count % PROGRESS_REPORT_EVERY == 0
}

/// What to do with one record.
pub enum EventAction {
    /// The record names no process or no event type: log it and drop it.
    Skip(Event),
    /// Send the event to the backend and to the local consumer.
    Forward(Event),
}

/// The event an action is about.
pub open spec fn action_event(a: EventAction) -> Event {
    match a {
        EventAction::Skip(e) => e,
        EventAction::Forward(e) => e,
    }
}

/// A full record is forwarded exactly when its pid word (bytes 0 to 3) and
/// its event type word (bytes 16 to 19) are both non-zero.
pub proof fn lemma_forwarded_records(b: Seq<u8>, e: Event)
    requires
        b.len() >= EVENT_SIZE,
        decodes_to(b, e),
    ensures
        e.spec_is_valid() <==> ((b[0] != 0 || b[1] != 0 || b[2] != 0 || b[3] != 0) && (b[16] != 0
            || b[17] != 0 || b[18] != 0 || b[19] != 0)),
{
    lemma_record_layout(b, e);
    lemma_validity(e);
}

/// Decides what to do with a record taken from the ring buffer (`None` when
/// there is no record data): no data is an `InvalidEventData` error "Null
/// pointer received", a record shorter than `EVENT_SIZE` one "Truncated event
/// record"; any other record is decoded, and forwarded exactly when it is
/// valid, else skipped.
pub fn decide_event(record: Option<&[u8]>) -> (r: Result<EventAction, AgentError>)
    ensures
        match record {
            None => r matches Err(AgentError::InvalidEventData(m)) && m@ == "Null pointer received"@,
            Some(b) => if b@.len() < EVENT_SIZE {
                r matches Err(AgentError::InvalidEventData(m)) && m@ == "Truncated event record"@
            } else {
                r matches Ok(a) && decodes_to(b@, action_event(a)) && (a is Forward
                    <==> action_event(a).spec_is_valid()) && (a is Forward <==> (
                action_event(a).pid != 0 && action_event(a).event_type != 0))
            },
        },
{
    match record {
        None => Err(AgentError::InvalidEventData(String::from_str("Null pointer received"))),
        Some(bytes) => match Event::from_bytes(bytes) {
            None => Err(AgentError::InvalidEventData(String::from_str("Truncated event record"))),
            Some(event) => {
                if event.is_valid() {
                    Ok(EventAction::Forward(event))
                } else {
                    Ok(EventAction::Skip(event))
                }
            },
        },
    }
}

} // verus!
