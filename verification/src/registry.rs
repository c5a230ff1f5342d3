//! The shared message registry: a mapping from message identifier to its
//! timing record, kept in insertion order so that reporting is deterministic.
//!
//! Message identifiers are the 128-bit value of a UUID; timestamps are
//! milliseconds on a monotonic clock supplied by the caller.
use vstd::prelude::*;

verus! {

/// Per-message timing data: the emit time, and the time of first
/// consumption once some consumer has claimed the message.
#[derive(Clone, Copy, Debug)]
pub struct TimingRecord {
    pub start: u64,
    pub end: Option<u64>,
}

/// The identifier sequence of a registry log.
pub open spec fn keys_of(log: Seq<(u128, TimingRecord)>) -> Seq<u128> {
    log.map_values(|e: (u128, TimingRecord)| e.0)
}

/// Whether some entry of the log carries the identifier `id`.
pub open spec fn has_id(log: Seq<(u128, TimingRecord)>, id: u128) -> bool {
    exists|i: int| 0 <= i < log.len() && log[i].0 == id
}

/// The position of the entry carrying `id`; meaningful only when
/// `has_id(log, id)` holds and the log's identifiers are distinct.
pub open spec fn key_index(log: Seq<(u128, TimingRecord)>, id: u128) -> int {
    choose|i: int| 0 <= i < log.len() && log[i].0 == id
}

/// The latency of a finalized record: first-consumption time minus emit
/// time, clamped to zero if the clock values are out of order.
pub open spec fn latency_spec(rec: TimingRecord) -> u64 {
    match rec.end {
        Some(t) => if t >= rec.start {
            (t - rec.start) as u64
        } else {
            0u64
        },
        None => 0u64,
    }
}

/// The report of a log: one `(identifier, latency)` pair per entry whose
/// end time is set, in log order. Entries never claimed are omitted.
pub open spec fn report_spec(log: Seq<(u128, TimingRecord)>) -> Seq<(u128, u64)>
    decreases log.len(),
{
    if log.len() == 0 {
        Seq::empty()
    } else {
        let rest = report_spec(log.drop_last());
        let e = log.last();
        if e.1.end is Some {
            rest.push((e.0, latency_spec(e.1)))
        } else {
            rest
        }
    }
}

/// Under distinct identifiers, `key_index` is the one position holding `id`.
pub proof fn lemma_key_index_is(log: Seq<(u128, TimingRecord)>, id: u128, i: int)
    requires
        keys_of(log).no_duplicates(),
        0 <= i < log.len(),
        log[i].0 == id,
    ensures
        key_index(log, id) == i,
{
    let j = key_index(log, id);
    assert(0 <= j < log.len() && log[j].0 == id);
    assert(keys_of(log)[i] == id);
    assert(keys_of(log)[j] == id);
}

/// A log none of whose entries was ever finalized reports nothing.
pub proof fn lemma_report_empty(log: Seq<(u128, TimingRecord)>)
    requires
        forall|i: int| 0 <= i < log.len() ==> log[i].1.end is None,
    ensures
        report_spec(log).len() == 0,
    decreases log.len(),
{
    if log.len() > 0 {
        lemma_report_empty(log.drop_last());
    }
}

/// The report never holds more messages than the registry: a message is
/// reported at most once, so no more latencies are recorded than
/// messages were published.
pub proof fn lemma_report_at_most_entries(log: Seq<(u128, TimingRecord)>)
    ensures
        report_spec(log).len() <= log.len(),
    decreases log.len(),
{
    if log.len() > 0 {
        lemma_report_at_most_entries(log.drop_last());
    }
}

/// A log all of whose entries were finalized is reported in full: one
/// latency per message.
pub proof fn lemma_report_full(log: Seq<(u128, TimingRecord)>)
    requires
        forall|i: int| 0 <= i < log.len() ==> log[i].1.end is Some,
    ensures
        report_spec(log).len() == log.len(),
    decreases log.len(),
{
    if log.len() > 0 {
        lemma_report_full(log.drop_last());
    }
}

/// Reporting is idempotent: the report is a function of the snapshot
/// alone, so two reporting steps over the same finalized snapshot
/// produce identical output.
pub proof fn lemma_report_idempotent(first: Registry, second: Registry)
    requires
        first@ == second@,
    ensures
        report_spec(first@) == report_spec(second@),
{
}

/// Shared mapping from message identifier to its timing record.
///
/// Producers insert a record at emit time; the first consumer to claim a
/// message sets its end time. The identifiers stored are distinct.
pub struct Registry {
    entries: Vec<(u128, TimingRecord)>,
}

impl View for Registry {
    type V = Seq<(u128, TimingRecord)>;

    closed spec fn view(&self) -> Seq<(u128, TimingRecord)> {
        self.entries@
    }
}

impl Registry {
    /// The registry's identifiers are distinct.
    pub open spec fn wf(self) -> bool {
        keys_of(self@).no_duplicates()
    }

    /// An empty registry.
    pub fn new() -> (r: Registry)
        ensures
            r@ == Seq::<(u128, TimingRecord)>::empty(),
            r.wf(),
    {
        Registry { entries: Vec::new() }
    }

    /// How many messages have a record.
    pub fn len(&self) -> (n: usize)
        ensures
            n == self@.len(),
    {
        self.entries.len()
    }

    /// The position of the entry carrying `id`, if the registry has one.
    #[verifier::loop_isolation(false)]
    fn find_index(&self, id: u128) -> (r: Option<usize>)
        ensures
            r matches Some(i) ==> i < self@.len() && self@[i as int].0 == id,
            r is None ==> !has_id(self@, id),
    {
        let n: usize = self.entries.len();
        let mut i: usize = 0;
        while i < n
            invariant
                i <= n,
                forall|k: int| 0 <= k < i ==> self.entries@[k].0 != id,
            decreases n - i,
        {
            if self.entries[i].0 == id {
                return Some(i);
            }
            i += 1;
        }
        None
    }

    /// Creates the record for a freshly emitted message, with start time
    /// `now` and no end time. A second call for the same identifier fails
    /// silently: the existing record is kept.
    pub fn record_start(&mut self, id: u128, now: u64)
        requires
            old(self).wf(),
        ensures
            final(self).wf(),
            !has_id(old(self)@, id) ==> final(self)@ == old(self)@.push(
                (id, (TimingRecord { start: now, end: None })),
            ),
            has_id(old(self)@, id) ==> final(self)@ == old(self)@,
    {
        match self.find_index(id) {
            Some(_) => {},
            None => {
                let ghost pre = self.entries@;
                self.entries.push((id, TimingRecord { start: now, end: None }));
                assert(keys_of(self.entries@) =~= keys_of(pre).push(id));
            },
        }
    }

    /// Sets the end time of the record for `id` to `now`; a no-op when no
    /// record for `id` exists (a consumer may defensively finalize a
    /// message the registry never saw).
    pub fn record_end(&mut self, id: u128, now: u64)
        requires
            old(self).wf(),
        ensures
            final(self).wf(),
            !has_id(old(self)@, id) ==> final(self)@ == old(self)@,
            has_id(old(self)@, id) ==> final(self)@ == old(self)@.update(
                key_index(old(self)@, id),
                (id, (TimingRecord {
                    start: old(self)@[key_index(old(self)@, id)].1.start,
                    end: Some(now),
                })),
            ),
    {
        match self.find_index(id) {
            Some(i) => {
                proof {
                    lemma_key_index_is(self@, id, i as int);
                }
                let ghost pre = self.entries@;
                let start: u64 = self.entries[i].1.start;
                self.entries[i] = (id, TimingRecord { start, end: Some(now) });
                assert(keys_of(self.entries@) =~= keys_of(pre));
            },
            None => {},
        }
    }

    /// The entry at position `i` of the registry's log.
    pub fn entry_at(&self, i: usize) -> (e: (u128, TimingRecord))
        requires
            i < self@.len(),
        ensures
            e == self@[i as int],
    {
        self.entries[i]
    }

    /// A consistent point-in-time copy of the registry, for reporting.
    #[verifier::loop_isolation(false)]
    pub fn snapshot(&self) -> (r: Registry)
        ensures
            r@ == self@,
            r.wf() == self.wf(),
    {
        let n: usize = self.entries.len();
        let mut copy: Vec<(u128, TimingRecord)> = Vec::new();
        let mut i: usize = 0;
        while i < n
            invariant
                i <= n,
                copy@ == self.entries@.subrange(0, i as int),
            decreases n - i,
        {
            copy.push(self.entries[i]);
            assert(copy@ =~= self.entries@.subrange(0, i as int + 1));
            i += 1;
        }
        assert(copy@ =~= self.entries@);
        Registry { entries: copy }
    }
}

/// The reporting step: one `(identifier, latency)` pair per message whose
/// end time was recorded, in registry order; unclaimed messages are
/// omitted. The result is a function of the registry's contents alone, so
/// running it twice on the same snapshot yields identical output.
#[verifier::loop_isolation(false)]
pub fn print_delay(registry: &Registry) -> (r: Vec<(u128, u64)>)
    ensures
        r@ == report_spec(registry@),
{
    let n: usize = registry.len();
    let mut out: Vec<(u128, u64)> = Vec::new();
    let mut i: usize = 0;
    while i < n
        invariant
            i <= n,
            out@ == report_spec(registry@.subrange(0, i as int)),
        decreases n - i,
    {
        let ghost prefix = registry@.subrange(0, i as int);
        let ghost prefix1 = registry@.subrange(0, i as int + 1);
        proof {
            assert(prefix1.drop_last() =~= prefix);
            assert(prefix1.last() == registry@[i as int]);
        }
        let entry = registry.entry_at(i);
        match entry.1.end {
            Some(t) => {
                let start: u64 = entry.1.start;
                let latency: u64 = if t >= start {
                    t - start
                } else {
                    0
                };
                out.push((entry.0, latency));
            },
            None => {},
        }
        i += 1;
    }
    assert(registry@.subrange(0, n as int) =~= registry@);
    out
}

} // verus!
