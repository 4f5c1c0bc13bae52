//! The callback registry designed for the generated facade class: a
//! monotonically increasing identifier counter (never reused, even after
//! release) and an identifier-to-instance map. In emitted Java the counter
//! is an `AtomicLong` and the map a `ConcurrentHashMap`, both private and
//! static; this component is the sequential model of that pair, against
//! which the registry's guarantees are stated and proved. Identifier
//! allocation is a single counter increment, so any interleaving of
//! concurrent registrations is some sequence of `register` calls, and the
//! proved monotonicity carries the no-duplicates guarantee.

use vstd::prelude::*;
use std::collections::HashMap;

verus! {

broadcast use vstd::std_specs::hash::group_hash_axioms;

/// Registry state: the counter and the live entries.
pub struct CallbackRegistry<T> {
    next: u64,
    entries: HashMap<u64, T>,
}

impl<T> CallbackRegistry<T> {
    /// The live entries, as a map from identifier to stored instance.
    pub closed spec fn contents(self) -> Map<u64, T> {
        self.entries@
    }

    /// The last identifier handed out; identifiers start at 1.
    pub closed spec fn counter(self) -> u64 {
        self.next
    }

    /// Every live identifier was handed out by the counter and is nonzero.
    pub closed spec fn wf(self) -> bool {
        forall|k: u64| self.entries@.contains_key(k) ==> 1 <= k <= self.next
    }

    /// A fresh registry: counter at zero, no entries.
    pub fn new() -> (r: Self)
        ensures
            r.wf(),
            r.counter() == 0,
            r.contents() == Map::<u64, T>::empty(),
    {
        CallbackRegistry { next: 0, entries: HashMap::new() }
    }

    /// Register one callback instance: take the next identifier and store
    /// the instance under it. The identifier is fresh — it was never live
    /// before — and strictly larger than every identifier handed out
    /// earlier, so any number of registrations yield pairwise distinct
    /// identifiers.
    pub fn register(&mut self, cb: T) -> (id: u64)
        requires
            old(self).wf(),
            old(self).counter() < u64::MAX,
        ensures
            final(self).wf(),
            id == old(self).counter() + 1,
            final(self).counter() == id,
            !old(self).contents().contains_key(id),
            final(self).contents() == old(self).contents().insert(id, cb),
    {
        let id = self.next + 1;
        self.next = id;
        self.entries.insert(id, cb);
        id
    }

    /// Look one identifier up, as the native side does before invoking a
    /// callback. A miss returns `None` and is not an error.
    pub fn lookup(&self, id: u64) -> (r: Option<&T>)
        ensures
            match r {
                Some(v) => self.contents().contains_key(id) && *v == self.contents()[id],
                None => !self.contents().contains_key(id),
            },
    {
        self.entries.get(&id)
    }

    /// Release one identifier: remove its entry if present. Releasing an
    /// absent or already-released identifier is a no-op, never an error,
    /// and the counter never moves back, so a released identifier is never
    /// handed out again.
    pub fn free_callback(&mut self, id: u64)
        ensures
            final(self).counter() == old(self).counter(),
            final(self).contents() == old(self).contents().remove(id),
            old(self).wf() ==> final(self).wf(),
    {
        self.entries.remove(&id);
    }
}

/// Releasing the same identifier twice leaves exactly the state of a
/// single release: the second call finds nothing and changes nothing.
pub proof fn lemma_free_idempotent<T>(m: Map<u64, T>, id: u64)
    ensures
        m.remove(id).remove(id) == m.remove(id),
{
    assert(m.remove(id).remove(id) =~= m.remove(id));
}

/// Identifiers handed out one after another are strictly increasing, so
/// any N registrations — under any interleaving — issue N pairwise
/// distinct identifiers.
pub proof fn lemma_increasing_ids_distinct(ids: Seq<u64>)
    requires
        forall|i: int, j: int| 0 <= i < j < ids.len() ==> ids[i] < ids[j],
    ensures
        forall|i: int, j: int| 0 <= i < ids.len() && 0 <= j < ids.len() && i != j ==> ids[i]
            != ids[j],
{
}

} // verus!
