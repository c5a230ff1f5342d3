//! The shared consumed-set: the message identifiers already claimed by
//! some consumer, in claim order.
//!
//! Its one compound operation, [`ConsumedSet::claim`], checks membership
//! and inserts as a single step; callers hold the set exclusively for the
//! duration of the call, so two consumers can never both believe they are
//! first for the same message.
use vstd::prelude::*;

verus! {

/// The set of message identifiers already claimed, in claim order.
/// Identifiers are never removed, and each occurs at most once.
pub struct ConsumedSet {
    items: Vec<u128>,
}

impl View for ConsumedSet {
    type V = Seq<u128>;

    closed spec fn view(&self) -> Seq<u128> {
        self.items@
    }
}

impl ConsumedSet {
    /// No identifier was ever claimed twice.
    pub open spec fn wf(self) -> bool {
        self@.no_duplicates()
    }

    /// An empty consumed-set.
    pub fn new() -> (r: ConsumedSet)
        ensures
            r@ == Seq::<u128>::empty(),
            r.wf(),
    {
        ConsumedSet { items: Vec::new() }
    }

    /// How many distinct messages have been claimed.
    pub fn len(&self) -> (n: usize)
        ensures
            n == self@.len(),
    {
        self.items.len()
    }

    /// Whether `id` has already been claimed.
    #[verifier::loop_isolation(false)]
    pub fn contains(&self, id: u128) -> (r: bool)
        ensures
            r == self@.contains(id),
    {
        let n: usize = self.items.len();
        let mut i: usize = 0;
        while i < n
            invariant
                i <= n,
                forall|k: int| 0 <= k < i ==> self@[k] != id,
            decreases n - i,
        {
            if self.items[i] == id {
                return true;
            }
            i += 1;
        }
        false
    }

    /// Claims first-handling rights for `id` as one atomic
    /// check-then-insert step: returns true, and records the claim, only
    /// if no consumer claimed `id` before.
    pub fn claim(&mut self, id: u128) -> (fresh: bool)
        requires
            old(self).wf(),
        ensures
            final(self).wf(),
            fresh == !old(self)@.contains(id),
            fresh ==> final(self)@ == old(self)@.push(id),
            !fresh ==> final(self)@ == old(self)@,
    {
        if self.contains(id) {
            false
        } else {
            self.items.push(id);
            true
        }
    }
}

} // verus!
