//! The consumer unit's decision logic.
//!
//! A consumer repeatedly awaits the broadcast channel and hands each
//! outcome, as a [`ConsumerEvent`], to [`consumer_step`] together with the
//! shared consumed-set and registry. The step decides whether this
//! consumer is the message's first processor, records the end time when it
//! is, and tells the caller how to continue. The loop around the channel
//! is the caller's: it performs the await, the processing delay, and stops
//! when the step says so.
use vstd::prelude::*;

use crate::consumed::ConsumedSet;
use crate::registry::Registry;
use crate::registry::has_id;
use crate::registry::key_index;
use crate::registry::TimingRecord;

verus! {

/// One outcome of awaiting the broadcast channel.
#[derive(Clone, Copy, Debug, PartialEq, Eq, Structural)]
pub enum ConsumerEvent {
    /// A message was delivered.
    Received(u128),
    /// The consumer fell behind a bounded channel and lost messages;
    /// log-worthy, not fatal.
    Lagged,
    /// The channel is closed and drained: the terminal state.
    Closed,
}

/// What the consumer's loop should do after a step.
#[derive(Clone, Copy, Debug, PartialEq, Eq, Structural)]
pub enum ConsumerAction {
    /// This consumer won the claim: simulate processing, then continue.
    Process,
    /// Another consumer already owns the message, or the event carried
    /// none: continue with the next receive.
    Skip,
    /// The channel is closed and drained: end the loop.
    Stop,
}

/// One consumer step: deduplicate the event's message against the shared
/// consumed-set and, on a first claim, record its end time `now` in the
/// registry.
///
/// Exactly the first claimant of a message gets `Process`; every later
/// observer of the same message gets `Skip` and changes nothing. A lagged
/// receive is skipped; a closed channel stops the loop.
pub fn consumer_step(
    event: ConsumerEvent,
    consumed: &mut ConsumedSet,
    registry: &mut Registry,
    now: u64,
) -> (a: ConsumerAction)
    requires
        old(consumed).wf(),
        old(registry).wf(),
    ensures
        final(consumed).wf(),
        final(registry).wf(),
        event is Closed ==> a is Stop,
        event is Lagged ==> a is Skip,
        event is Received ==> (a is Process <==> !old(consumed)@.contains(event->0)),
        event is Received && old(consumed)@.contains(event->0) ==> a is Skip,
        !(event is Received && !old(consumed)@.contains(event->0)) ==> {
            &&& final(consumed)@ == old(consumed)@
            &&& final(registry)@ == old(registry)@
        },
        event is Received && !old(consumed)@.contains(event->0) ==> {
            &&& final(consumed)@ == old(consumed)@.push(event->0)
            &&& (!has_id(old(registry)@, event->0) ==> final(registry)@ == old(registry)@)
            &&& (has_id(old(registry)@, event->0) ==> final(registry)@ == old(registry)@.update(
                key_index(old(registry)@, event->0),
                (event->0, (TimingRecord {
                    start: old(registry)@[key_index(old(registry)@, event->0)].1.start,
                    end: Some(now),
                })),
            ))
        },
{
    match event {
        ConsumerEvent::Received(id) => {
            if consumed.claim(id) {
                registry.record_end(id, now);
                ConsumerAction::Process
            } else {
                ConsumerAction::Skip
            }
        },
        ConsumerEvent::Lagged => ConsumerAction::Skip,
        ConsumerEvent::Closed => ConsumerAction::Stop,
    }
}

} // verus!
