//! A small map from strings to values that keeps its entries in the order in
//! which their keys were first inserted.

use crate::text::str_eq;
use vstd::prelude::*;

verus! {

/// The position of the entry that holds `key`, if there is one.
pub open spec fn position_of<V>(entries: Seq<(Seq<char>, V)>, key: Seq<char>) -> Option<int> {
    if exists|i: int| 0 <= i < entries.len() && entries[i].0 == key {
        Some(choose|i: int| 0 <= i < entries.len() && entries[i].0 == key)
    } else {
        None
    }
}

/// No key stands in two entries.
pub open spec fn distinct_keys<V>(entries: Seq<(Seq<char>, V)>) -> bool {
    forall|i: int, j: int|
        0 <= i < j < entries.len() ==> (#[trigger] entries[i]).0 != (#[trigger] entries[j]).0
}

/// The map that a list of entries with distinct keys stands for.
pub open spec fn entries_map<V>(entries: Seq<(Seq<char>, V)>) -> Map<Seq<char>, V> {
    Map::new(
        |key: Seq<char>| position_of(entries, key) is Some,
        |key: Seq<char>| entries[position_of(entries, key).unwrap()].1,
    )
}

/// Where the keys are distinct, the entry at `index` is the one that its key
/// is mapped by.
pub proof fn lemma_entry_is_mapped<V>(entries: Seq<(Seq<char>, V)>, index: int)
    requires
        distinct_keys(entries),
        0 <= index < entries.len(),
    ensures
        position_of(entries, entries[index].0) == Some(index),
        entries_map(entries).contains_key(entries[index].0),
        entries_map(entries)[entries[index].0] == entries[index].1,
{
    let key = entries[index].0;
    let found = choose|i: int| 0 <= i < entries.len() && entries[i].0 == key;
    if found < index {
        assert(entries[found].0 != entries[index].0);
    } else if index < found {
        assert(entries[index].0 != entries[found].0);
    }
}

/// A key that no entry holds is not mapped.
pub proof fn lemma_absent_is_unmapped<V>(entries: Seq<(Seq<char>, V)>, key: Seq<char>)
    requires
        forall|i: int| 0 <= i < entries.len() ==> (#[trigger] entries[i]).0 != key,
    ensures
        !entries_map(entries).contains_key(key),
{
}

/// The entries of a list, each key as its characters.
pub open spec fn entries_of<V>(list: Seq<(String, V)>) -> Seq<(Seq<char>, V)> {
    Seq::new(list.len(), |i: int| (list[i].0@, list[i].1))
}

/// Replacing the value of an entry changes the map at its key only.
pub proof fn lemma_update_is_insert<V>(entries: Seq<(Seq<char>, V)>, index: int, value: V)
    requires
        distinct_keys(entries),
        0 <= index < entries.len(),
    ensures
        distinct_keys(entries.update(index, (entries[index].0, value))),
        entries_map(entries.update(index, (entries[index].0, value))) == entries_map(
            entries,
        ).insert(entries[index].0, value),
{
    let key = entries[index].0;
    let after = entries.update(index, (key, value));
    assert forall|k: Seq<char>| position_of(after, k) is Some <==> position_of(
        entries,
        k,
    ) is Some by {
        if position_of(entries, k) is Some {
            let j = position_of(entries, k).unwrap();
            assert(after[j].0 == k);
        }
        if position_of(after, k) is Some {
            let j = position_of(after, k).unwrap();
            assert(entries[j].0 == k);
        }
    }
    lemma_entry_is_mapped(entries, index);
    assert forall|k: Seq<char>| position_of(entries, k) is Some implies entries_map(after)[k] == (
    if k == key {
        value
    } else {
        entries_map(entries)[k]
    }) by {
        let j = position_of(entries, k).unwrap();
        lemma_entry_is_mapped(entries, j);
        assert(after[j].0 == k);
        lemma_entry_is_mapped(after, j);
    }
    assert(entries_map(after) =~= entries_map(entries).insert(key, value));
}

/// Appending an entry with a new key adds that key to the map.
pub proof fn lemma_push_is_insert<V>(entries: Seq<(Seq<char>, V)>, key: Seq<char>, value: V)
    requires
        distinct_keys(entries),
        forall|i: int| 0 <= i < entries.len() ==> (#[trigger] entries[i]).0 != key,
    ensures
        distinct_keys(entries.push((key, value))),
        position_of(entries, key) is None,
        entries_map(entries.push((key, value))) == entries_map(entries).insert(key, value),
{
    let after = entries.push((key, value));
    lemma_entry_is_mapped(after, entries.len() as int);
    assert forall|k: Seq<char>| position_of(after, k) is Some <==> (k == key || position_of(
        entries,
        k,
    ) is Some) by {
        if position_of(entries, k) is Some {
            let j = position_of(entries, k).unwrap();
            assert(after[j].0 == k);
        }
        if position_of(after, k) is Some {
            let j = position_of(after, k).unwrap();
            if j < entries.len() {
                assert(entries[j].0 == k);
            }
        }
    }
    assert forall|k: Seq<char>| k != key && position_of(entries, k) is Some implies entries_map(
        after,
    )[k] == entries_map(entries)[k] by {
        let j = position_of(entries, k).unwrap();
        lemma_entry_is_mapped(entries, j);
        assert(after[j].0 == k);
        lemma_entry_is_mapped(after, j);
    }
    assert(entries_map(after) =~= entries_map(entries).insert(key, value));
}

/// Taking an entry out takes its key out of the map.
pub proof fn lemma_remove_is_remove<V>(entries: Seq<(Seq<char>, V)>, index: int)
    requires
        distinct_keys(entries),
        0 <= index < entries.len(),
    ensures
        distinct_keys(entries.remove(index)),
        entries_map(entries.remove(index)) == entries_map(entries).remove(entries[index].0),
{
    let key = entries[index].0;
    let after = entries.remove(index);
    assert forall|j: int| 0 <= j < after.len() implies (#[trigger] after[j]).0 != key by {
        if j < index {
            assert(entries[j].0 != entries[index].0);
        } else {
            assert(entries[index].0 != entries[j + 1].0);
        }
    }
    assert(distinct_keys(after)) by {
        assert forall|i: int, j: int| 0 <= i < j < after.len() implies (#[trigger] after[i]).0 != (
        #[trigger] after[j]).0 by {
            let from_i = if i < index {
                i
            } else {
                i + 1
            };
            let from_j = if j < index {
                j
            } else {
                j + 1
            };
            assert(entries[from_i].0 != entries[from_j].0);
        }
    }
    lemma_absent_is_unmapped(after, key);
    let expected = entries_map(entries).remove(key);
    assert forall|k: Seq<char>| #[trigger]
        entries_map(after).contains_key(k) == expected.contains_key(k) by {
        if k != key && position_of(entries, k) is Some {
            let j = position_of(entries, k).unwrap();
            let moved = if j < index {
                j
            } else {
                j - 1
            };
            assert(after[moved] == entries[j]);
        }
        if position_of(after, k) is Some {
            let j = position_of(after, k).unwrap();
            let origin = if j < index {
                j
            } else {
                j + 1
            };
            assert(entries[origin].0 == k);
        }
    }
    assert forall|k: Seq<char>| #[trigger]
        entries_map(after).contains_key(k) implies entries_map(after)[k] == expected[k] by {
        let j = position_of(after, k).unwrap();
        let origin = if j < index {
            j
        } else {
            j + 1
        };
        assert(entries[origin] == after[j]);
        lemma_entry_is_mapped(entries, origin);
        lemma_entry_is_mapped(after, j);
    }
    assert(entries_map(after) =~= expected);
}

/// A map keyed by strings. Lookups compare the keys character by character;
/// iteration by index goes through the entries in insertion order.
#[derive(Debug)]
pub struct StringMap<V> {
    entries: Vec<(String, V)>,
}

impl<V> StringMap<V> {
    #[verifier::type_invariant]
    spec fn keys_are_distinct(self) -> bool {
        distinct_keys(self.entries())
    }

    /// The entries in insertion order, each key as its characters.
    pub closed spec fn entries(self) -> Seq<(Seq<char>, V)> {
        entries_of(self.entries@)
    }

    /// The map that the entries stand for.
    pub open spec fn view(self) -> Map<Seq<char>, V> {
        entries_map(self.entries())
    }

    pub fn new() -> (map: Self)
        ensures
            map.entries() == Seq::<(Seq<char>, V)>::empty(),
            map@ == Map::<Seq<char>, V>::empty(),
    {
        let map = StringMap { entries: Vec::new() };
        assert(map.entries() =~= Seq::<(Seq<char>, V)>::empty());
        assert(map@ =~= Map::<Seq<char>, V>::empty());
        map
    }

    /// Number of entries. The keys of the entries are distinct.
    pub fn len(&self) -> (n: usize)
        ensures
            n == self.entries().len(),
            distinct_keys(self.entries()),
    {
        proof {
            use_type_invariant(self);
        }
        self.entries.len()
    }

    pub fn is_empty(&self) -> (r: bool)
        ensures
            r == (self.entries().len() == 0),
    {
        self.entries.len() == 0
    }

    /// The key of the entry at `index`.
    pub fn key_at(&self, index: usize) -> (key: &String)
        requires
            index < self.entries().len(),
        ensures
            key@ == self.entries()[index as int].0,
    {
        &self.entries[index].0
    }

    /// The value of the entry at `index`.
    pub fn value_at(&self, index: usize) -> (value: &V)
        requires
            index < self.entries().len(),
        ensures
            *value == self.entries()[index as int].1,
    {
        &self.entries[index].1
    }

    fn find(&self, key: &str) -> (r: Option<usize>)
        ensures
            match r {
                Some(i) => i < self.entries().len() && self.entries()[i as int].0 == key@,
                None => forall|i: int|
                    0 <= i < self.entries().len() ==> (#[trigger] self.entries()[i]).0 != key@,
            },
    {
        let mut i: usize = 0;
        while i < self.entries.len()
            invariant
                i <= self.entries.len(),
                forall|j: int| 0 <= j < i ==> (#[trigger] self.entries()[j]).0 != key@,
            decreases self.entries.len() - i,
        {
            if str_eq(self.entries[i].0.as_str(), key) {
                return Some(i);
            }
            i += 1;
        }
        None
    }

    pub fn contains_key(&self, key: &str) -> (r: bool)
        ensures
            r == self@.contains_key(key@),
    {
        proof {
            use_type_invariant(self);
        }
        match self.find(key) {
            Some(i) => {
                proof {
                    lemma_entry_is_mapped(self.entries(), i as int);
                }
                true
            },
            None => false,
        }
    }

    pub fn get(&self, key: &str) -> (r: Option<&V>)
        ensures
            r == if self@.contains_key(key@) {
                Some(&self@[key@])
            } else {
                None
            },
    {
        proof {
            use_type_invariant(self);
        }
        match self.find(key) {
            Some(i) => {
                proof {
                    lemma_entry_is_mapped(self.entries(), i as int);
                }
                Some(&self.entries[i].1)
            },
            None => None,
        }
    }

    /// Maps `key` to `value`. A key that is already there keeps its place and
    /// gets the new value; a new key goes to the end. Returns the value that
    /// the key had.
    pub fn insert(&mut self, key: String, value: V) -> (previous: Option<V>)
        ensures
            final(self)@ == old(self)@.insert(key@, value),
            previous == if old(self)@.contains_key(key@) {
                Some(old(self)@[key@])
            } else {
                None
            },
            match position_of(old(self).entries(), key@) {
                Some(i) => final(self).entries() == old(self).entries().update(i, (key@, value)),
                None => final(self).entries() == old(self).entries().push((key@, value)),
            },
    {
        proof {
            use_type_invariant(&*self);
        }
        let ghost before = self.entries();
        let found = self.find(key.as_str());
        let mut entries: Vec<(String, V)> = Vec::new();
        core::mem::swap(&mut self.entries, &mut entries);
        assert(entries_of(entries@) == before);
        let previous = match found {
            Some(i) => {
                let mut slot = value;
                core::mem::swap(&mut entries[i].1, &mut slot);
                proof {
                    lemma_entry_is_mapped(before, i as int);
                    lemma_update_is_insert(before, i as int, value);
                    assert(entries_of(entries@) =~= before.update(i as int, (key@, value)));
                }
                Some(slot)
            },
            None => {
                entries.push((key, value));
                proof {
                    lemma_absent_is_unmapped(before, key@);
                    lemma_push_is_insert(before, key@, value);
                    assert(entries_of(entries@) =~= before.push((key@, value)));
                }
                None
            },
        };
        core::mem::swap(&mut self.entries, &mut entries);
        previous
    }

    /// Takes the entry of `key` out, if there is one. The other entries keep
    /// their order.
    pub fn remove(&mut self, key: &str) -> (previous: Option<V>)
        ensures
            final(self)@ == old(self)@.remove(key@),
            previous == if old(self)@.contains_key(key@) {
                Some(old(self)@[key@])
            } else {
                None
            },
            match position_of(old(self).entries(), key@) {
                Some(i) => final(self).entries() == old(self).entries().remove(i),
                None => final(self).entries() == old(self).entries(),
            },
    {
        proof {
            use_type_invariant(&*self);
        }
        let ghost before = self.entries();
        match self.find(key) {
            Some(i) => {
                let mut entries: Vec<(String, V)> = Vec::new();
                core::mem::swap(&mut self.entries, &mut entries);
                let entry = entries.remove(i);
                proof {
                    lemma_entry_is_mapped(before, i as int);
                    lemma_remove_is_remove(before, i as int);
                    assert(entries_of(entries@) =~= before.remove(i as int));
                }
                core::mem::swap(&mut self.entries, &mut entries);
                Some(entry.1)
            },
            None => {
                proof {
                    lemma_absent_is_unmapped(before, key@);
                    assert(before.len() == 0 || position_of(before, key@) is None);
                    assert(self@ =~= old(self)@.remove(key@));
                }
                None
            },
        }
    }
}

impl<V: Clone> Clone for StringMap<V> {
    /// A copy with the same keys in the same order, each with a clone of its
    /// value.
    fn clone(&self) -> (copy: Self)
        ensures
            copy.entries().len() == self.entries().len(),
            forall|i: int|
                0 <= i < self.entries().len() ==> (#[trigger] copy.entries()[i]).0
                    == self.entries()[i].0 && cloned(self.entries()[i].1, copy.entries()[i].1),
    {
        proof {
            use_type_invariant(self);
        }
        let mut entries: Vec<(String, V)> = Vec::new();
        let mut i: usize = 0;
        while i < self.entries.len()
            invariant
                i <= self.entries.len(),
                entries.len() == i,
                forall|j: int|
                    0 <= j < i ==> (#[trigger] entries@[j]).0@ == self.entries@[j].0@ && cloned(
                        self.entries@[j].1,
                        entries@[j].1,
                    ),
            decreases self.entries.len() - i,
        {
            entries.push((self.entries[i].0.clone(), self.entries[i].1.clone()));
            i += 1;
        }
        proof {
            let copied = entries_of(entries@);
            let source = self.entries();
            assert forall|a: int, b: int| 0 <= a < b < copied.len() implies (#[trigger] copied[a]).0
                != (#[trigger] copied[b]).0 by {
                assert(source[a].0 != source[b].0);
            }
        }
        StringMap { entries }
    }
}

} // verus!
