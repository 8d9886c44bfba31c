//! A small map for the entries that the contract keeps per address, per number or per
//! attestation.

use crate::address::Address;
use vstd::prelude::*;

verus! {

/// A key that can be compared with another of its kind.
pub trait StorageKey: View + Sized {
    /// Whether the two keys name the same slot.
    fn same(&self, other: &Self) -> (same: bool)
        ensures
            same == (self@ == other@),
    ;
}

impl StorageKey for Address {
    fn same(&self, other: &Self) -> (same: bool) {
        *self == *other
    }
}

impl StorageKey for u64 {
    fn same(&self, other: &Self) -> (same: bool) {
        *self == *other
    }
}

/// A map kept as a list of entries. Where a key occurs twice, the entry nearer the front counts.
pub struct KeyedMap<K: StorageKey, V: View> {
    entries: Vec<(K, V)>,
}

/// The map that a list of entries stands for.
pub closed spec fn entries_map<K: StorageKey, V: View>(entries: Seq<(K, V)>) -> Map<K::V, V::V>
    decreases entries.len(),
{
    if entries.len() == 0 {
        Map::empty()
    } else {
        entries_map(entries.drop_first()).insert(entries[0].0@, entries[0].1@)
    }
}

impl<K: StorageKey, V: View> View for KeyedMap<K, V> {
    type V = Map<K::V, V::V>;

    closed spec fn view(&self) -> Map<K::V, V::V> {
        entries_map(self.entries@)
    }
}

/// An entry whose key occurs nowhere in front of it is the one that the map holds.
proof fn lemma_first_entry<K: StorageKey, V: View>(entries: Seq<(K, V)>, i: int)
    requires
        0 <= i < entries.len(),
        forall|j: int| 0 <= j < i ==> (#[trigger] entries[j]).0@ != entries[i].0@,
    ensures
        entries_map(entries).contains_key(entries[i].0@),
        entries_map(entries)[entries[i].0@] == entries[i].1@,
    decreases entries.len(),
{
    if i > 0 {
        let rest = entries.drop_first();
        assert(entries[0].0@ != entries[i].0@);
        assert(rest[i - 1] == entries[i]);
        assert forall|j: int| 0 <= j < i - 1 implies (#[trigger] rest[j]).0@ != rest[i - 1].0@ by {
            assert(rest[j] == entries[j + 1]);
        }
        lemma_first_entry(rest, i - 1);
    }
}

/// A key that no entry has is not in the map.
proof fn lemma_absent<K: StorageKey, V: View>(entries: Seq<(K, V)>, key: K::V)
    requires
        forall|j: int| 0 <= j < entries.len() ==> (#[trigger] entries[j]).0@ != key,
    ensures
        !entries_map(entries).contains_key(key),
    decreases entries.len(),
{
    if entries.len() > 0 {
        let rest = entries.drop_first();
        assert(entries[0].0@ != key);
        assert forall|j: int| 0 <= j < rest.len() implies (#[trigger] rest[j]).0@ != key by {
            assert(rest[j] == entries[j + 1]);
        }
        lemma_absent(rest, key);
    }
}

/// Dropping one entry of a key changes the map at that key alone.
proof fn lemma_drop_entry<K: StorageKey, V: View>(entries: Seq<(K, V)>, i: int)
    requires
        0 <= i < entries.len(),
    ensures
        entries_map(entries.remove(i)).remove(entries[i].0@) =~= entries_map(entries).remove(
            entries[i].0@,
        ),
    decreases entries.len(),
{
    if i == 0 {
        assert(entries.remove(0) =~= entries.drop_first());
    } else {
        let rest = entries.drop_first();
        assert(rest[i - 1] == entries[i]);
        lemma_drop_entry(rest, i - 1);
        assert(entries.remove(i).drop_first() =~= rest.remove(i - 1));
        assert(entries.remove(i)[0] == entries[0]);
        let key = entries[i].0@;
        let with = entries_map(rest);
        let without = entries_map(rest.remove(i - 1));
        let all = entries_map(entries).remove(key);
        let fewer = entries_map(entries.remove(i)).remove(key);
        assert(entries_map(entries) == with.insert(entries[0].0@, entries[0].1@));
        assert(entries_map(entries.remove(i)) == without.insert(entries[0].0@, entries[0].1@));
        assert forall|other: K::V| #[trigger] all.dom().contains(other) == fewer.dom().contains(other)
            && (all.dom().contains(other) ==> all[other] == fewer[other]) by {
            assert(with.remove(key).dom().contains(other) == without.remove(key).dom().contains(
                other,
            ));
            assert(with.remove(key)[other] == without.remove(key)[other]);
        }
        assert(all =~= fewer);
    }
}

/// A new entry in front of the list sets its key.
proof fn lemma_prepend<K: StorageKey, V: View>(entries: Seq<(K, V)>, entry: (K, V))
    ensures
        entries_map(entries.insert(0, entry)) == entries_map(entries).insert(entry.0@, entry.1@),
{
    assert(entries.insert(0, entry).drop_first() =~= entries);
}

impl<K: StorageKey, V: View> KeyedMap<K, V> {
    /// A map without entries.
    pub fn new() -> (map: Self)
        ensures
            map@ == Map::<K::V, V::V>::empty(),
    {
        KeyedMap { entries: Vec::new() }
    }

    /// The value kept under a key.
    pub fn get(&self, key: &K) -> (value: Option<&V>)
        ensures
            match value {
                Some(v) => self@.contains_key(key@) && v@ == self@[key@],
                None => !self@.contains_key(key@),
            },
    {
        let mut i: usize = 0;
        while i < self.entries.len()
            invariant
                i <= self.entries.len(),
                forall|j: int| 0 <= j < i ==> (#[trigger] self.entries@[j]).0@ != key@,
            decreases self.entries.len() - i,
        {
            if self.entries[i].0.same(key) {
                proof {
                    lemma_first_entry(self.entries@, i as int);
                }
                return Some(&self.entries[i].1);
            }
            i = i + 1;
        }
        proof {
            lemma_absent(self.entries@, key@);
        }
        None
    }

    /// Whether a key has a value.
    pub fn has(&self, key: &K) -> (present: bool)
        ensures
            present == self@.contains_key(key@),
    {
        match self.get(key) {
            Some(_) => true,
            None => false,
        }
    }

    /// Drops a key and its value.
    pub fn remove(&mut self, key: &K)
        ensures
            final(self)@ == old(self)@.remove(key@),
    {
        let ghost before = self.entries@;
        let mut i: usize = 0;
        while i < self.entries.len()
            invariant
                i <= self.entries.len(),
                forall|j: int| 0 <= j < i ==> (#[trigger] self.entries@[j]).0@ != key@,
                entries_map(self.entries@).remove(key@) =~= entries_map(before).remove(key@),
            decreases self.entries.len() - i,
        {
            if self.entries[i].0.same(key) {
                proof {
                    lemma_drop_entry(self.entries@, i as int);
                }
                self.entries.remove(i);
            } else {
                i = i + 1;
            }
        }
        proof {
            lemma_absent(self.entries@, key@);
            assert(entries_map(self.entries@) =~= entries_map(self.entries@).remove(key@));
        }
    }

    /// Keeps a value under a key, in place of any that was there.
    pub fn set(&mut self, key: K, value: V)
        ensures
            final(self)@ == old(self)@.insert(key@, value@),
    {
        self.remove(&key);
        proof {
            lemma_prepend(self.entries@, (key, value));
        }
        self.entries.insert(0, (key, value));
        assert(old(self)@.remove(key@).insert(key@, value@) =~= old(self)@.insert(key@, value@));
    }
}

} // verus!
