//! The statement cache of one connection.

use crate::handle::share;
use crate::lru;
use std::sync::Arc;
use vstd::prelude::*;

verus! {

struct Slot<S> {
    query: String,
    statement: Arc<S>,
}

/// A bounded cache from query text to a shared handle to the statement that
/// was prepared for it. The entry that was used least recently is evicted
/// first; both a lookup and an insertion count as a use.
pub struct StatementCache<S> {
    slots: Vec<Slot<S>>,
    capacity: usize,
}

impl<S> View for StatementCache<S> {
    type V = Seq<(Seq<char>, Arc<S>)>;

    /// The entries, from the least to the most recently used.
    closed spec fn view(&self) -> Self::V {
        entries(self.slots@)
    }
}

/// What a sequence of slots holds: each query text with its statement.
spec fn entries<S>(slots: Seq<Slot<S>>) -> Seq<(Seq<char>, Arc<S>)> {
    slots.map_values(|slot: Slot<S>| (slot.query@, slot.statement))
}

impl<S> StatementCache<S> {
    #[verifier::type_invariant]
    spec fn inv(&self) -> bool {
        lru::well_formed(self@, self.capacity as nat)
    }

    /// The number of entries that the cache holds at most.
    pub closed spec fn spec_capacity(&self) -> usize {
        self.capacity
    }

    /// An empty cache of the given capacity.
    pub fn new(capacity: usize) -> (cache: Self)
        ensures
            cache@ == Seq::<(Seq<char>, Arc<S>)>::empty(),
            cache.capacity() == capacity,
    {
        StatementCache { slots: Vec::new(), capacity }
    }

    /// The number of entries that the cache holds at most.
    #[verifier::when_used_as_spec(spec_capacity)]
    pub fn capacity(&self) -> (capacity: usize)
        ensures
            capacity == self.capacity(),
            lru::well_formed(self@, capacity as nat),
    {
        proof {
            use_type_invariant(self);
        }
        self.capacity
    }

    /// The number of entries in the cache.
    pub fn len(&self) -> (len: usize)
        ensures
            len == self@.len(),
            lru::well_formed(self@, self.capacity() as nat),
    {
        proof {
            use_type_invariant(self);
        }
        self.slots.len()
    }

    /// The cached query texts, from the least to the most recently used.
    pub fn queries(&self) -> (queries: Vec<String>)
        ensures
            queries@.len() == self@.len(),
            forall|i: int| 0 <= i < self@.len() ==> (#[trigger] queries@[i])@ == self@[i].0,
    {
        let mut queries: Vec<String> = Vec::new();
        let mut i: usize = 0;
        while i < self.slots.len()
            invariant
                i <= self.slots.len(),
                self@.len() == self.slots.len(),
                queries@.len() == i,
                forall|j: int| 0 <= j < i ==> (#[trigger] queries@[j])@ == self@[j].0,
            decreases self.slots.len() - i,
        {
            queries.push(self.slots[i].query.clone());
            i += 1;
        }
        queries
    }

    fn find(&self, key: &String) -> (found: Option<usize>)
        ensures
            match found {
                Some(i) => i < self@.len() && self@[i as int].0 == key@,
                None => !lru::contains(self@, key@),
            },
    {
        let mut i: usize = 0;
        while i < self.slots.len()
            invariant
                i <= self.slots.len(),
                self@.len() == self.slots.len(),
                forall|j: int| 0 <= j < i ==> (#[trigger] self@[j]).0 != key@,
            decreases self.slots.len() - i,
        {
            if self.slots[i].query == *key {
                return Some(i);
            }
            i += 1;
        }
        None
    }

    /// Looks `query` up. A hit makes its entry the most recent one and
    /// returns a handle to the statement; a miss leaves the cache as it is.
    pub fn get(&mut self, query: &str) -> (found: Option<Arc<S>>)
        ensures
            found == lru::lookup(old(self)@, query@),
            final(self)@ == lru::touch(old(self)@, query@),
            final(self).capacity() == old(self).capacity(),
    {
        proof {
            use_type_invariant(&*self);
        }
        let key = query.to_owned();
        match self.find(&key) {
            Some(i) => {
                proof {
                    lru::lemma_position(self@, key@, i as int);
                    lru::lemma_touch(self@, key@);
                }
                let ghost before = self@;
                let mut slots: Vec<Slot<S>> = Vec::new();
                std::mem::swap(&mut slots, &mut self.slots);
                let slot = slots.remove(i);
                let handle = share(&slot.statement);
                slots.push(slot);
                assert(entries(slots@) =~= lru::touch(before, key@));
                self.slots = slots;
                Some(handle)
            },
            None => None,
        }
    }

    /// Stores `statement` under `query` as the most recent entry. An older
    /// entry under `query` is replaced. Where the cache is then over its
    /// capacity, the least recently used entry is evicted.
    pub fn put(&mut self, query: &str, statement: Arc<S>)
        ensures
            final(self)@ == lru::insert(old(self)@, old(self).capacity() as nat, query@, statement),
            final(self).capacity() == old(self).capacity(),
    {
        proof {
            use_type_invariant(&*self);
            lru::lemma_insert(self@, self.capacity as nat, query@, statement);
        }
        let ghost before = self@;
        let key = query.to_owned();
        let found = self.find(&key);
        let mut slots: Vec<Slot<S>> = Vec::new();
        std::mem::swap(&mut slots, &mut self.slots);
        match found {
            Some(i) => {
                proof {
                    lru::lemma_position(before, key@, i as int);
                }
                slots.remove(i);
            },
            None => {},
        }
        assert(entries(slots@) =~= lru::without(before, key@));
        slots.push(Slot { query: key, statement });
        if slots.len() > self.capacity {
            slots.remove(0);
        }
        assert(entries(slots@) =~= lru::insert(before, self.capacity as nat, query@, statement));
        self.slots = slots;
    }

    /// Sets the capacity. Where the cache holds more entries than that, the
    /// least recently used ones are evicted; a capacity of 0 empties it.
    pub fn change_capacity(&mut self, capacity: usize)
        ensures
            final(self)@ == lru::newest(old(self)@, capacity as nat),
            final(self).capacity() == capacity,
    {
        proof {
            use_type_invariant(&*self);
            lru::lemma_newest(self@, capacity as nat);
        }
        let ghost before = self@;
        let mut slots: Vec<Slot<S>> = Vec::new();
        std::mem::swap(&mut slots, &mut self.slots);
        let ghost all = slots@;
        let ghost mut evicted: int = 0;
        while slots.len() > capacity
            invariant
                0 <= evicted <= all.len(),
                evicted == 0 || all.len() - evicted >= capacity,
                slots@ == all.skip(evicted),
            decreases slots.len(),
        {
            slots.remove(0);
            proof {
                evicted = evicted + 1;
            }
            assert(slots@ =~= all.skip(evicted));
        }
        assert(entries(slots@) =~= lru::newest(before, capacity as nat));
        self.capacity = capacity;
        self.slots = slots;
    }
}

} // verus!
