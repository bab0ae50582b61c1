//! A small map from strings to values, kept as a list with distinct keys.

use vstd::prelude::*;

verus! {

/// A finite map keyed by strings.
#[derive(Debug)]
pub struct StrMap<V> {
    entries: Vec<(String, V)>,
}

/// The keys of a list of entries are pairwise different.
pub open spec fn distinct_keys<V>(entries: Seq<(String, V)>) -> bool {
    forall|i: int, j: int|
        0 <= i < j < entries.len() ==> (#[trigger] entries[i]).0@ != (#[trigger] entries[j]).0@
}

/// The position of `key` among the entries, if it occurs.
pub open spec fn position_of<V>(entries: Seq<(String, V)>, key: Seq<char>) -> Option<int> {
    if exists|i: int| 0 <= i < entries.len() && (#[trigger] entries[i]).0@ == key {
        Some(choose|i: int| 0 <= i < entries.len() && (#[trigger] entries[i]).0@ == key)
    } else {
        None
    }
}

impl<V> View for StrMap<V> {
    type V = Map<Seq<char>, V>;

    closed spec fn view(&self) -> Map<Seq<char>, V> {
        Map::new(
            |key: Seq<char>| position_of(self.entries@, key) is Some,
            |key: Seq<char>| self.entries@[position_of(self.entries@, key)->0].1,
        )
    }
}

impl<V> StrMap<V> {
    #[verifier::type_invariant]
    spec fn well_formed(self) -> bool {
        distinct_keys(self.entries@)
    }

    /// The keys in the order in which they were first stored.
    pub closed spec fn key_order(&self) -> Seq<Seq<char>> {
        Seq::new(self.entries@.len(), |i: int| self.entries@[i].0@)
    }

    /// The map holds exactly the keys of its key order.
    pub proof fn lemma_keys(&self)
        ensures
            forall|key: Seq<char>| #[trigger]
                self@.contains_key(key) <==> self.key_order().contains(key),
    {
        assert forall|key: Seq<char>| #[trigger]
            self@.contains_key(key) <==> self.key_order().contains(key) by {
            if self@.contains_key(key) {
                let i = position_of(self.entries@, key)->0;
                assert(self.key_order()[i] == key);
            }
            if self.key_order().contains(key) {
                let i = choose|i: int| 0 <= i < self.key_order().len() && self.key_order()[i] == key;
                assert(self.entries@[i].0@ == key);
            }
        }
    }

    /// The number of entries.
    pub fn len(&self) -> (n: usize)
        ensures
            n == self.key_order().len(),
    {
        self.entries.len()
    }

    /// The key at position `i` of the key order, if there are that many.
    pub fn key_at(&self, i: usize) -> (key: Option<&String>)
        ensures
            match key {
                Some(key) => i < self.key_order().len() && key@ == self.key_order()[i as int]
                    && self@.contains_key(key@),
                None => i >= self.key_order().len(),
            },
    {
        if i < self.entries.len() {
            assert(self.entries@[i as int].0@ == self.key_order()[i as int]);
            Some(&self.entries[i].0)
        } else {
            None
        }
    }

    /// The value stored under the key at position `i` of the key order, if
    /// there are that many.
    pub fn value_at(&self, i: usize) -> (value: Option<&V>)
        ensures
            match value {
                Some(value) => i < self.key_order().len() && self@.contains_key(
                    self.key_order()[i as int],
                ) && *value == self@[self.key_order()[i as int]],
                None => i >= self.key_order().len(),
            },
    {
        if i < self.entries.len() {
            proof {
                use_type_invariant(self);
                let key = self.key_order()[i as int];
                assert(self.entries@[i as int].0@ == key);
                assert(position_of(self.entries@, key) == Some(i as int));
            }
            Some(&self.entries[i].1)
        } else {
            None
        }
    }

    /// Whether a value is stored under `key`.
    pub fn contains_key(&self, key: &String) -> (found: bool)
        ensures
            found == self@.contains_key(key@),
    {
        match self.index_of(key) {
            Some(i) => true,
            None => false,
        }
    }

    /// The empty map.
    pub fn new() -> (map: Self)
        ensures
            map@ == Map::<Seq<char>, V>::empty(),
    {
        let map = StrMap { entries: Vec::new() };
        assert(map@ =~= Map::<Seq<char>, V>::empty());
        map
    }

    fn index_of(&self, key: &String) -> (found: Option<usize>)
        ensures
            match found {
                Some(i) => i < self.entries@.len() && self.entries@[i as int].0@ == key@,
                None => forall|i: int| 0 <= i < self.entries@.len() ==> (#[trigger] self.entries@[i]).0@ != key@,
            },
    {
        let mut i: usize = 0;
        while i < self.entries.len()
            invariant
                i <= self.entries@.len(),
                forall|j: int| 0 <= j < i ==> (#[trigger] self.entries@[j]).0@ != key@,
            decreases self.entries@.len() - i,
        {
            if self.entries[i].0 == *key {
                return Some(i);
            }
            i += 1;
        }
        None
    }

    /// The value stored under `key`, if any.
    pub fn get(&self, key: &String) -> (value: Option<&V>)
        ensures
            match value {
                Some(v) => self@.contains_key(key@) && *v == self@[key@],
                None => !self@.contains_key(key@),
            },
    {
        proof {
            use_type_invariant(self);
        }
        match self.index_of(key) {
            Some(i) => {
                assert(position_of(self.entries@, key@) == Some(i as int));
                Some(&self.entries[i].1)
            },
            None => None,
        }
    }

    /// Stores `value` under `key`, replacing what was stored there.
    pub fn insert(&mut self, key: String, value: V)
        ensures
            final(self)@ == old(self)@.insert(key@, value),
    {
        proof {
            use_type_invariant(&*self);
        }
        let found = self.index_of(&key);
        let mut entries: Vec<(String, V)> = Vec::new();
        std::mem::swap(&mut entries, &mut self.entries);
        match found {
            Some(i) => {
                entries.set(i, (key, value));
            },
            None => {
                entries.push((key, value));
            },
        }
        self.entries = entries;
        proof {
            let before = old(self).entries@;
            let after = self.entries@;
            assert forall|k: Seq<char>| #[trigger] self@.contains_key(k) <==> (k == key@ || old(self)@.contains_key(k)) by {
                if position_of(before, k) is Some {
                    let i = position_of(before, k)->0;
                    assert(after[i].0@ == k);
                }
                if position_of(after, k) is Some {
                    let i = position_of(after, k)->0;
                    if i < before.len() && k != key@ {
                        assert(before[i].0@ == k);
                    }
                }
                if k == key@ {
                    match found {
                        Some(i) => { assert(after[i as int].0@ == k); },
                        None => { assert(after[before.len() as int].0@ == k); },
                    }
                }
            }
            assert forall|k: Seq<char>| self@.contains_key(k) implies #[trigger] self@[k] == old(self)@.insert(key@, value)[k] by {
                let i = position_of(after, k)->0;
                if k == key@ {
                    match found {
                        Some(f) => { assert(after[f as int].0@ == k); },
                        None => { assert(after[before.len() as int].0@ == k); },
                    }
                } else {
                    assert(before[i].0@ == k);
                    let j = position_of(before, k)->0;
                    assert(after[j].0@ == k);
                }
            }
            assert(self@ =~= old(self)@.insert(key@, value));
        }
    }
}

impl<V> StrMap<V> {
    /// Removes the entry stored under `key` and hands its value out.
    pub fn remove(&mut self, key: &String) -> (value: Option<V>)
        ensures
            final(self)@ == old(self)@.remove(key@),
            value == (if old(self)@.contains_key(key@) {
                Some(old(self)@[key@])
            } else {
                None
            }),
    {
        proof {
            use_type_invariant(&*self);
        }
        match self.index_of(key) {
            Some(i) => {
                let mut entries: Vec<(String, V)> = Vec::new();
                std::mem::swap(&mut entries, &mut self.entries);
                let entry = entries.remove(i);
                self.entries = entries;
                proof {
                    let before = old(self).entries@;
                    let after = self.entries@;
                    assert(position_of(before, key@) == Some(i as int));
                    assert forall|k: Seq<char>| #[trigger]
                        self@.contains_key(k) <==> (k != key@ && old(self)@.contains_key(k)) by {
                        if position_of(after, k) is Some {
                            let j = position_of(after, k)->0;
                            if j < i {
                                assert(before[j].0@ == k);
                            } else {
                                assert(before[j + 1].0@ == k);
                            }
                        }
                        if k != key@ && position_of(before, k) is Some {
                            let j = position_of(before, k)->0;
                            if j < i {
                                assert(after[j].0@ == k);
                            } else {
                                assert(after[j - 1].0@ == k);
                            }
                        }
                    }
                    assert forall|k: Seq<char>| self@.contains_key(k) implies #[trigger] self@[k]
                        == old(self)@.remove(key@)[k] by {
                        let j = position_of(after, k)->0;
                        let b = position_of(before, k)->0;
                        if j < i {
                            assert(before[j].0@ == k);
                        } else {
                            assert(before[j + 1].0@ == k);
                        }
                    }
                    assert(self@ =~= old(self)@.remove(key@));
                }
                Some(entry.1)
            },
            None => {
                assert(self@ =~= old(self)@.remove(key@));
                None
            },
        }
    }
}

impl<V> Default for StrMap<V> {
    fn default() -> (map: Self)
        ensures
            map@ == Map::<Seq<char>, V>::empty(),
    {
        StrMap::new()
    }
}

impl<V: Clone> Clone for StrMap<V> {
    /// A copy with the same keys in the same order, each with a clone of
    /// its value.
    fn clone(&self) -> (copy: Self)
        ensures
            copy.key_order() == self.key_order(),
            forall|key: Seq<char>| #[trigger]
                self@.contains_key(key) ==> copy@.contains_key(key) && cloned(
                    self@[key],
                    copy@[key],
                ),
    {
        proof {
            use_type_invariant(self);
        }
        let mut entries: Vec<(String, V)> = Vec::new();
        let mut i: usize = 0;
        while i < self.entries.len()
            invariant
                i <= self.entries@.len(),
                entries@.len() == i,
                forall|j: int|
                    0 <= j < i ==> (#[trigger] entries@[j]).0@ == self.entries@[j].0@ && cloned(
                        self.entries@[j].1,
                        entries@[j].1,
                    ),
            decreases self.entries@.len() - i,
        {
            entries.push((self.entries[i].0.clone(), self.entries[i].1.clone()));
            i += 1;
        }
        let copy = StrMap { entries };
        proof {
            assert(copy.key_order() =~= self.key_order());
            assert forall|key: Seq<char>| #[trigger] self@.contains_key(key) implies copy@.contains_key(
                key,
            ) && cloned(self@[key], copy@[key]) by {
                let at = position_of(self.entries@, key)->0;
                assert(copy.entries@[at].0@ == key);
                assert(position_of(copy.entries@, key) == Some(at));
            }
        }
        copy
    }
}

} // verus!
