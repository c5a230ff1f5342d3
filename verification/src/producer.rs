//! The producer unit's per-message work.
//!
//! Each iteration of a producer's loop generates a fresh message
//! identifier, records its start time in the shared registry, and
//! publishes the identifier on the broadcast channel. The loop itself,
//! with its randomized sleep between iterations, is the caller's; a send
//! failure (no active receivers) ends that producer's loop early.
use vstd::prelude::*;

use crate::registry::Registry;
use crate::registry::has_id;
use crate::registry::TimingRecord;

verus! {

#[verifier::external_type_specification]
#[verifier::external_body]
#[verifier::reject_recursive_types(T)]
pub struct ExSender<T>(tokio::sync::broadcast::Sender<T>);

/// Relies on uuid::Uuid::new_v4: a random version-4 UUID, taken as its
/// 128-bit value. The draw is random; uniqueness is not assumed.
#[verifier::external_body]
fn fresh_message_id() -> (id: u128) {
    uuid::Uuid::new_v4().as_u128()
}

/// Relies on tokio::sync::broadcast::Sender::send: the value is enqueued
/// for every active receiver and the call returns how many there are;
/// when there is none, the value comes back unsent in the error.
#[verifier::external_body]
fn send_message(sender: &tokio::sync::broadcast::Sender<u128>, id: u128) -> (r: Result<
    usize,
    u128,
>)
    ensures
        r matches Err(m) ==> m == id,
{
    match sender.send(id) {
        Ok(n) => Ok(n),
        Err(e) => Err(e.0),
    }
}

/// One producer emit: generates a fresh message identifier, records its
/// start time `now` in the registry, then publishes it on the broadcast
/// channel. Returns the identifier and whether the publish succeeded; on
/// failure the caller ends this producer's loop, which is non-fatal.
///
/// The registry gains exactly the new record; should the random
/// identifier collide with one already registered, the existing record
/// is kept.
pub fn producer_publish(
    sender: &tokio::sync::broadcast::Sender<u128>,
    registry: &mut Registry,
    now: u64,
) -> (r: (u128, bool))
    requires
        old(registry).wf(),
    ensures
        final(registry).wf(),
        !has_id(old(registry)@, r.0) ==> final(registry)@ == old(registry)@.push(
            (r.0, (TimingRecord { start: now, end: None })),
        ),
        has_id(old(registry)@, r.0) ==> final(registry)@ == old(registry)@,
{
    let id: u128 = fresh_message_id();
    registry.record_start(id, now);
    let sent = match send_message(sender, id) {
        Ok(_) => true,
        Err(_) => false,
    };
    (id, sent)
}

} // verus!
