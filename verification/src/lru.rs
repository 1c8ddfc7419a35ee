//! The recency order of a bounded cache, as a sequence of entries.
//!
//! An entry is a pair of a key and a value. Index 0 holds the entry that was
//! used least recently, the last index the one that was used most recently.
//! Everything here is specification: the executable cache states its
//! contracts over these functions.

use vstd::prelude::*;

verus! {

/// Some entry of `entries` is stored under `key`.
pub open spec fn contains<K, V>(entries: Seq<(K, V)>, key: K) -> bool {
    exists|i: int| 0 <= i < entries.len() && (#[trigger] entries[i]).0 == key
}

/// An index at which `key` is stored; the only one where the keys are distinct.
pub open spec fn position<K, V>(entries: Seq<(K, V)>, key: K) -> int {
    choose|i: int| 0 <= i < entries.len() && (#[trigger] entries[i]).0 == key
}

/// The value stored under `key`, if there is one.
pub open spec fn lookup<K, V>(entries: Seq<(K, V)>, key: K) -> Option<V> {
    if contains(entries, key) {
        Some(entries[position(entries, key)].1)
    } else {
        None
    }
}

/// The entries after `key` was used: its entry becomes the most recent one.
pub open spec fn touch<K, V>(entries: Seq<(K, V)>, key: K) -> Seq<(K, V)> {
    if contains(entries, key) {
        let i = position(entries, key);
        entries.remove(i).push(entries[i])
    } else {
        entries
    }
}

/// The entries with the one under `key` taken out.
pub open spec fn without<K, V>(entries: Seq<(K, V)>, key: K) -> Seq<(K, V)> {
    if contains(entries, key) {
        entries.remove(position(entries, key))
    } else {
        entries
    }
}

/// The `room` most recent entries: the older ones are evicted.
pub open spec fn newest<K, V>(entries: Seq<(K, V)>, room: nat) -> Seq<(K, V)> {
    if entries.len() <= room {
        entries
    } else {
        entries.skip(entries.len() - room)
    }
}

/// The entries after `value` was stored under `key` in a cache that holds
/// at most `capacity` of them. An older entry under `key` is replaced; the
/// new entry is the most recent one; what no longer fits is evicted from the
/// old end, which with `capacity` 0 is the new entry itself.
pub open spec fn insert<K, V>(entries: Seq<(K, V)>, capacity: nat, key: K, value: V) -> Seq<(K, V)> {
    newest(without(entries, key).push((key, value)), capacity)
}

/// No key occurs twice.
pub open spec fn distinct<K, V>(entries: Seq<(K, V)>) -> bool {
    forall|i: int, j: int|
        0 <= i < j < entries.len() ==> (#[trigger] entries[i]).0 != (#[trigger] entries[j]).0
}

/// What holds of the entries of every cache of `capacity`.
pub open spec fn well_formed<K, V>(entries: Seq<(K, V)>, capacity: nat) -> bool {
    distinct(entries) && entries.len() <= capacity
}

/// With distinct keys, the index at which a key is seen is its position.
pub proof fn lemma_position<K, V>(entries: Seq<(K, V)>, key: K, i: int)
    requires
        distinct(entries),
        0 <= i < entries.len(),
        entries[i].0 == key,
    ensures
        contains(entries, key),
        position(entries, key) == i,
        lookup(entries, key) == Some(entries[i].1),
{
    let p = position(entries, key);
    assert(0 <= p < entries.len() && entries[p].0 == key);
    if p < i {
        assert(entries[p].0 != entries[i].0);
    } else if i < p {
        assert(entries[i].0 != entries[p].0);
    }
}

/// Taking entries out keeps the keys distinct.
pub proof fn lemma_remove_distinct<K, V>(entries: Seq<(K, V)>, i: int)
    requires
        distinct(entries),
        0 <= i < entries.len(),
    ensures
        distinct(entries.remove(i)),
        !contains(entries.remove(i), entries[i].0),
        forall|key: K| key != entries[i].0 ==> contains(entries.remove(i), key) == contains(entries, key),
{
    let rest = entries.remove(i);
    assert forall|a: int, b: int| 0 <= a < b < rest.len() implies (#[trigger] rest[a]).0 != (#[trigger] rest[b]).0 by {
        let a0 = if a < i { a } else { a + 1 };
        let b0 = if b < i { b } else { b + 1 };
        assert(rest[a] == entries[a0]);
        assert(rest[b] == entries[b0]);
        assert(entries[a0].0 != entries[b0].0);
    }
    assert forall|a: int| 0 <= a < rest.len() implies (#[trigger] rest[a]).0 != entries[i].0 by {
        let a0 = if a < i { a } else { a + 1 };
        assert(rest[a] == entries[a0]);
        if a0 < i {
            assert(entries[a0].0 != entries[i].0);
        } else {
            assert(entries[i].0 != entries[a0].0);
        }
    }
    assert forall|key: K| key != entries[i].0 implies contains(rest, key) == contains(entries, key) by {
        if contains(entries, key) {
            let p = position(entries, key);
            let q = if p < i { p } else { p - 1 };
            assert(rest[q] == entries[p]);
        }
        if contains(rest, key) {
            let q = position(rest, key);
            let p = if q < i { q } else { q + 1 };
            assert(rest[q] == entries[p]);
        }
    }
}

/// A new key at the recent end keeps the keys distinct.
pub proof fn lemma_push_distinct<K, V>(entries: Seq<(K, V)>, key: K, value: V)
    requires
        distinct(entries),
        !contains(entries, key),
    ensures
        distinct(entries.push((key, value))),
        position(entries.push((key, value)), key) == entries.len(),
        lookup(entries.push((key, value)), key) == Some(value),
        forall|other: K|
            contains(entries.push((key, value)), other) == (other == key || contains(entries, other)),
{
    let more = entries.push((key, value));
    assert forall|a: int, b: int| 0 <= a < b < more.len() implies (#[trigger] more[a]).0 != (#[trigger] more[b]).0 by {
        assert(more[a] == entries[a]);
        if b < entries.len() {
            assert(more[b] == entries[b]);
        }
    }
    assert(more[entries.len() as int].0 == key);
    lemma_position(more, key, entries.len() as int);
    assert forall|other: K| contains(more, other) == (other == key || contains(entries, other)) by {
        if contains(entries, other) {
            let p = position(entries, other);
            assert(more[p] == entries[p]);
        }
        if contains(more, other) && other != key {
            let p = position(more, other);
            assert(more[p] == entries[p]);
        }
    }
}

/// Using a key changes the order of the entries and nothing else.
pub proof fn lemma_touch<K, V>(entries: Seq<(K, V)>, key: K)
    requires
        distinct(entries),
    ensures
        distinct(touch(entries, key)),
        touch(entries, key).len() == entries.len(),
        forall|other: K| contains(touch(entries, key), other) == contains(entries, other),
        forall|other: K| lookup(touch(entries, key), other) == lookup(entries, other),
        contains(entries, key) ==> touch(entries, key).last() == entries[position(entries, key)],
{
    if contains(entries, key) {
        let i = position(entries, key);
        let rest = entries.remove(i);
        let after = touch(entries, key);
        lemma_remove_distinct(entries, i);
        lemma_push_distinct(rest, key, entries[i].1);
        assert(after == rest.push((key, entries[i].1)));
        assert forall|other: K| lookup(after, other) == lookup(entries, other) by {
            if contains(entries, other) {
                let p = position(entries, other);
                if p == i {
                    lemma_position(after, other, after.len() - 1);
                } else {
                    let q = if p < i { p } else { p - 1 };
                    assert(after[q] == entries[p]);
                    lemma_position(after, other, q);
                }
            }
        }
    }
}

/// Eviction keeps the most recent entries, in their order, and fits them
/// into the room that is left.
pub proof fn lemma_newest<K, V>(entries: Seq<(K, V)>, room: nat)
    requires
        distinct(entries),
    ensures
        well_formed(newest(entries, room), room),
        forall|key: K| contains(newest(entries, room), key) ==> contains(entries, key),
        forall|key: K|
            contains(newest(entries, room), key) ==> lookup(newest(entries, room), key) == lookup(
                entries,
                key,
            ),
{
    let kept = newest(entries, room);
    let gone = entries.len() - kept.len();
    assert forall|a: int| 0 <= a < kept.len() implies #[trigger] kept[a] == entries[a + gone] by {}
    assert forall|a: int, b: int| 0 <= a < b < kept.len() implies (#[trigger] kept[a]).0 != (#[trigger] kept[b]).0 by {
        assert(entries[a + gone].0 != entries[b + gone].0);
    }
    assert forall|key: K| contains(kept, key) implies contains(entries, key) && lookup(kept, key)
        == lookup(entries, key) by {
        let p = position(kept, key);
        assert(kept[p] == entries[p + gone]);
        lemma_position(entries, key, p + gone);
        lemma_position(kept, key, p);
    }
}

/// An insertion leaves a cache of the same capacity well formed.
pub proof fn lemma_insert<K, V>(entries: Seq<(K, V)>, capacity: nat, key: K, value: V)
    requires
        distinct(entries),
    ensures
        well_formed(insert(entries, capacity, key, value), capacity),
        distinct(without(entries, key).push((key, value))),
{
    let rest = without(entries, key);
    if contains(entries, key) {
        lemma_remove_distinct(entries, position(entries, key));
    }
    lemma_push_distinct(rest, key, value);
    lemma_newest(rest.push((key, value)), capacity);
}

/// The entries after each item of `items` was inserted in turn, the first
/// item first.
pub open spec fn insert_all<K, V>(entries: Seq<(K, V)>, capacity: nat, items: Seq<(K, V)>) -> Seq<
    (K, V),
>
    decreases items.len(),
{
    if items.len() == 0 {
        entries
    } else {
        insert(
            insert_all(entries, capacity, items.drop_last()),
            capacity,
            items.last().0,
            items.last().1,
        )
    }
}

/// The entries after each key of `keys` was used in turn, the first key
/// first.
pub open spec fn touch_all<K, V>(entries: Seq<(K, V)>, keys: Seq<K>) -> Seq<(K, V)>
    decreases keys.len(),
{
    if keys.len() == 0 {
        entries
    } else {
        touch(touch_all(entries, keys.drop_last()), keys.last())
    }
}

/// Lookups change the order of the entries and never what is cached: after
/// any number of them the cache is as long as before and answers every key
/// as before.
pub proof fn lookups_keep_contents<K, V>(entries: Seq<(K, V)>, capacity: nat, keys: Seq<K>)
    requires
        well_formed(entries, capacity),
    ensures
        well_formed(touch_all(entries, keys), capacity),
        touch_all(entries, keys).len() == entries.len(),
        forall|key: K| lookup(touch_all(entries, keys), key) == lookup(entries, key),
    decreases keys.len(),
{
    if keys.len() > 0 {
        lookups_keep_contents(entries, capacity, keys.drop_last());
        lemma_touch(touch_all(entries, keys.drop_last()), keys.last());
    }
}

/// A key that is cached is found again after it was used, under the same
/// value: a second lookup is a hit that returns what the first one did, and
/// it leaves the order as the first one left it.
pub proof fn hit_after_hit<K, V>(entries: Seq<(K, V)>, capacity: nat, key: K)
    requires
        well_formed(entries, capacity),
        contains(entries, key),
    ensures
        lookup(entries, key) is Some,
        lookup(touch(entries, key), key) == lookup(entries, key),
        touch(touch(entries, key), key) == touch(entries, key),
        well_formed(touch(entries, key), capacity),
{
    lemma_touch(entries, key);
    let once = touch(entries, key);
    assert(once.last().0 == key);
    lemma_position(once, key, once.len() - 1);
    assert(once.remove(once.len() - 1).push(once.last()) =~= once);
}

/// In a cache that keeps anything at all, a key that was just inserted is
/// found, under the value that was inserted: the lookup after a miss is a
/// hit.
pub proof fn hit_after_insert<K, V>(entries: Seq<(K, V)>, capacity: nat, key: K, value: V)
    requires
        well_formed(entries, capacity),
        capacity > 0,
    ensures
        lookup(insert(entries, capacity, key, value), key) == Some(value),
        insert(entries, capacity, key, value).last() == (key, value),
        well_formed(insert(entries, capacity, key, value), capacity),
{
    lemma_insert(entries, capacity, key, value);
    let after = insert(entries, capacity, key, value);
    assert(after.last() == (key, value));
    lemma_position(after, key, after.len() - 1);
}

/// Inserting a new key into a cache with room left evicts nothing. Into a
/// full cache it evicts the least recently used entry, that one only, and
/// keeps the others in their order.
pub proof fn insert_evicts_least_recent<K, V>(
    entries: Seq<(K, V)>,
    capacity: nat,
    key: K,
    value: V,
)
    requires
        well_formed(entries, capacity),
        !contains(entries, key),
    ensures
        entries.len() < capacity ==> insert(entries, capacity, key, value) == entries.push(
            (key, value),
        ),
        entries.len() == capacity && capacity > 0 ==> insert(entries, capacity, key, value)
            == entries.drop_first().push((key, value)),
{
    let after = insert(entries, capacity, key, value);
    if entries.len() < capacity {
        assert(after =~= entries.push((key, value)));
    } else if capacity > 0 {
        assert(after =~= entries.drop_first().push((key, value)));
    }
}

/// A key that was used is safe from the next eviction: where the cache
/// holds two entries or more, inserting a new key after `used` was looked
/// up leaves `used` in the cache, under its value.
pub proof fn use_protects_from_eviction<K, V>(
    entries: Seq<(K, V)>,
    capacity: nat,
    used: K,
    key: K,
    value: V,
)
    requires
        well_formed(entries, capacity),
        capacity >= 2,
        contains(entries, used),
        !contains(entries, key),
    ensures
        lookup(insert(touch(entries, used), capacity, key, value), used) == lookup(entries, used),
        lookup(entries, used) is Some,
{
    lemma_touch(entries, used);
    let recent = touch(entries, used);
    assert(!contains(recent, key));
    assert(recent.last().0 == used);
    lemma_position(recent, used, recent.len() - 1);
    lemma_insert(recent, capacity, key, value);
    let after = insert(recent, capacity, key, value);
    assert(after[after.len() - 2] == recent.last());
    lemma_position(after, used, after.len() - 2);
}

/// Keys that are inserted one after the other into an empty cache, each
/// of them once, leave the most recent `capacity` of them, in the order
/// in which they came. One key more than the cache holds evicts exactly
/// the first.
pub proof fn inserts_keep_newest<K, V>(capacity: nat, items: Seq<(K, V)>)
    requires
        distinct(items),
    ensures
        insert_all(Seq::<(K, V)>::empty(), capacity, items) == newest(items, capacity),
    decreases items.len(),
{
    let empty = Seq::<(K, V)>::empty();
    if items.len() == 0 {
        assert(newest(items, capacity) =~= empty);
    } else {
        let earlier = items.drop_last();
        let last = items.last();
        assert forall|a: int, b: int| 0 <= a < b < earlier.len() implies (#[trigger] earlier[a]).0
            != (#[trigger] earlier[b]).0 by {
            assert(earlier[a] == items[a] && earlier[b] == items[b]);
        }
        inserts_keep_newest(capacity, earlier);
        let kept = newest(earlier, capacity);
        lemma_newest(earlier, capacity);
        if contains(earlier, last.0) {
            let p = position(earlier, last.0);
            assert(earlier[p] == items[p]);
            assert(items[p].0 != items[items.len() - 1].0);
        }
        assert(!contains(kept, last.0));
        assert(newest(kept.push(last), capacity) =~= newest(items, capacity)) by {
            assert(items =~= earlier.push(last));
        }
    }
}

/// A cache of capacity 0 is empty and stays empty: an insertion keeps
/// nothing, so the lookup after it is a miss again.
pub proof fn capacity_zero_caches_nothing<K, V>(entries: Seq<(K, V)>, key: K, value: V)
    requires
        well_formed(entries, 0),
    ensures
        entries == Seq::<(K, V)>::empty(),
        lookup(entries, key) is None,
        insert(entries, 0, key, value) == Seq::<(K, V)>::empty(),
        lookup(insert(entries, 0, key, value), key) is None,
{
    assert(entries =~= Seq::<(K, V)>::empty());
    assert(insert(entries, 0, key, value) =~= Seq::<(K, V)>::empty());
}

/// An empty cache answers every lookup with a miss, and the miss leaves
/// it empty.
pub proof fn empty_cache_misses<K, V>(key: K)
    ensures
        lookup(Seq::<(K, V)>::empty(), key) is None,
        touch(Seq::<(K, V)>::empty(), key) == Seq::<(K, V)>::empty(),
{
}

} // verus!
