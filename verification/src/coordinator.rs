//! The coordinator's protocol, as a verified model.
//!
//! The live coordinator spawns producers and consumers as concurrent
//! tasks, waits for every producer, closes the channel, waits for every
//! consumer, and reports. [`run_simulation`] is that protocol on one
//! lossless, fair schedule: every message is published in generation
//! order, every consumer observes every message, the earliest observer
//! claims it, and once the channel is closed every consumer stops. Its
//! contract carries the guarantees the coordination is for: no message is
//! finalized before it was emitted, no message is claimed twice, and with
//! no consumers nothing is ever finalized. The function terminates on
//! every input, as every verified function here must.
use vstd::prelude::*;

use crate::consumed::ConsumedSet;
use crate::consumer::consumer_step;
use crate::consumer::ConsumerAction;
use crate::consumer::ConsumerEvent;
use crate::registry::has_id;
use crate::registry::key_index;
use crate::registry::lemma_key_index_is;
use crate::registry::Registry;
use crate::registry::TimingRecord;

verus! {

/// The run's configuration: how many producers and consumers to spawn,
/// and how many messages each producer emits.
#[derive(Clone, Copy, Debug, PartialEq, Eq, Structural)]
pub struct Config {
    pub producers: usize,
    pub consumers: usize,
    pub messages_per_producer: usize,
}

impl Default for Config {
    /// The default run: 10 producers, 5 consumers, 5 messages each.
    fn default() -> (c: Config)
        ensures
            c.producers == 10,
            c.consumers == 5,
            c.messages_per_producer == 5,
    {
        Config { producers: 10, consumers: 5, messages_per_producer: 5 }
    }
}

/// One lossless, fair schedule of the coordinator's run.
///
/// `ids` is the flattened sequence of message identifiers the producers
/// emit, in publish order; identifiers are globally unique. The model's
/// clock ticks once per publish and once per message consumed, so entry
/// `k` is emitted at time `k` and, with at least one consumer, first
/// consumed at time `ids.len() + k`.
///
/// Returns the final registry, the consumed-set, and the sequence of
/// messages claimed by a first processor, in claim order.
#[verifier::loop_isolation(false)]
pub fn run_simulation(
    num_producers: usize,
    num_consumers: usize,
    num_messages_per_producer: usize,
    ids: &Vec<u128>,
) -> (r: (Registry, ConsumedSet, Vec<u128>))
    requires
        ids@.no_duplicates(),
        ids@.len() == num_producers as int * num_messages_per_producer as int,
        ids@.len() < 0x1000_0000_0000_0000,
    ensures
        r.0.wf(),
        r.1.wf(),
        r.0@.len() == ids@.len(),
        forall|k: int| 0 <= k < ids@.len() ==> r.0@[k].0 == ids@[k],
        num_consumers >= 1 ==> forall|k: int|
            0 <= k < ids@.len() ==> r.0@[k] == (ids@[k], (TimingRecord {
                start: k as u64,
                end: Some((ids@.len() + k) as u64),
            })),
        num_consumers == 0 ==> forall|k: int|
            0 <= k < ids@.len() ==> r.0@[k] == (ids@[k], (TimingRecord {
                start: k as u64,
                end: None,
            })),
        forall|k: int|
            0 <= k < r.0@.len() ==> ((#[trigger] r.0@[k]).1.end matches Some(e) ==> e
                >= r.0@[k].1.start),
        r.2@.no_duplicates(),
        r.2@.len() <= ids@.len(),
        num_consumers >= 1 ==> r.2@ == ids@ && r.1@ == ids@,
        num_consumers == 0 ==> r.2@.len() == 0 && r.1@.len() == 0,
{
    let n: usize = ids.len();
    let mut registry = Registry::new();
    let mut consumed = ConsumedSet::new();
    let mut claims: Vec<u128> = Vec::new();
    let mut clock: u64 = 0;

    // Every producer publishes, in generation order.
    let mut i: usize = 0;
    while i < n
        invariant
            i <= n,
            registry.wf(),
            registry@.len() == i,
            forall|k: int|
                0 <= k < i ==> registry@[k] == (ids@[k], (TimingRecord {
                    start: k as u64,
                    end: None,
                })),
            clock == i,
        decreases n - i,
    {
        assert(!has_id(registry@, ids@[i as int])) by {
            if has_id(registry@, ids@[i as int]) {
                let k = choose|k: int|
                    0 <= k < registry@.len() && registry@[k].0 == ids@[i as int];
                assert(registry@[k].0 == ids@[k]);
            }
        }
        registry.record_start(ids[i], clock);
        clock = clock + 1;
        i += 1;
    }

    // Every consumer observes every message; the earliest observer claims
    // it and records its end time.
    if num_consumers > 0 {
        let mut i: usize = 0;
        while i < n
            invariant
                i <= n,
                registry.wf(),
                consumed.wf(),
                registry@.len() == n,
                forall|k: int|
                    0 <= k < i ==> registry@[k] == (ids@[k], (TimingRecord {
                        start: k as u64,
                        end: Some((n + k) as u64),
                    })),
                forall|k: int|
                    i <= k < n ==> registry@[k] == (ids@[k], (TimingRecord {
                        start: k as u64,
                        end: None,
                    })),
                consumed@ == ids@.subrange(0, i as int),
                claims@ == ids@.subrange(0, i as int),
                clock == n + i,
            decreases n - i,
        {
            let ghost reg0 = registry@;
            let ghost cons0 = consumed@;
            assert(!cons0.contains(ids@[i as int])) by {
                if cons0.contains(ids@[i as int]) {
                    let k = choose|k: int| 0 <= k < cons0.len() && cons0[k] == ids@[i as int];
                    assert(cons0[k] == ids@[k]);
                }
            }
            proof {
                lemma_key_index_is(reg0, ids@[i as int], i as int);
            }
            let a = consumer_step(
                ConsumerEvent::Received(ids[i]),
                &mut consumed,
                &mut registry,
                clock,
            );
            assert(a is Process);
            match a {
                ConsumerAction::Process => claims.push(ids[i]),
                _ => {},
            }
            let ghost reg1 = registry@;
            let ghost cons1 = consumed@;
            assert(cons1.contains(ids@[i as int])) by {
                assert(cons1[cons0.len() as int] == ids@[i as int]);
            }

            // Every other consumer observes the same message and skips it.
            let mut c: usize = 1;
            while c < num_consumers
                invariant
                    1 <= c <= num_consumers,
                    registry.wf(),
                    consumed.wf(),
                    registry@ == reg1,
                    consumed@ == cons1,
                decreases num_consumers - c,
            {
                let a2 = consumer_step(
                    ConsumerEvent::Received(ids[i]),
                    &mut consumed,
                    &mut registry,
                    clock,
                );
                assert(a2 is Skip);
                c += 1;
            }

            assert(consumed@ =~= ids@.subrange(0, i as int + 1));
            assert(claims@ =~= ids@.subrange(0, i as int + 1));
            clock = clock + 1;
            i += 1;
        }
        assert(consumed@ =~= ids@);
        assert(claims@ =~= ids@);
    }

    // The channel is closed and drained: every consumer observes the
    // terminal state and stops.
    let ghost reg2 = registry@;
    let ghost cons2 = consumed@;
    let mut c: usize = 0;
    while c < num_consumers
        invariant
            c <= num_consumers,
            registry.wf(),
            consumed.wf(),
            registry@ == reg2,
            consumed@ == cons2,
        decreases num_consumers - c,
    {
        let a = consumer_step(ConsumerEvent::Closed, &mut consumed, &mut registry, clock);
        assert(a is Stop);
        c += 1;
    }

    (registry, consumed, claims)
}

} // verus!
