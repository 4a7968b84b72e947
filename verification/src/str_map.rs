//! A map keyed by text, kept in insertion order.
//!
//! Keys are compared by their characters. An entry keeps the place it was
//! first inserted at, so walking the map by index is deterministic.

use vstd::prelude::*;

verus! {

/// One key with its value.
#[derive(Debug)]
struct Entry<V> {
    key: String,
    value: V,
}

/// Text-keyed map over a vector of entries in which no key occurs twice.
#[derive(Debug)]
pub struct StrMap<V> {
    entries: Vec<Entry<V>>,
}

/// Whether `keys` holds no element twice.
pub open spec fn distinct(keys: Seq<Seq<char>>) -> bool {
    forall|i: int, j: int| 0 <= i < j < keys.len() ==> keys[i] != keys[j]
}

/// The keys of `entries`, in order.
spec fn entry_keys<V>(entries: Seq<Entry<V>>) -> Seq<Seq<char>> {
    Seq::new(entries.len(), |i: int| entries[i].key@)
}

/// The values of `entries`, in order.
spec fn entry_values<V>(entries: Seq<Entry<V>>) -> Seq<V> {
    Seq::new(entries.len(), |i: int| entries[i].value)
}

/// The map that sends each key of `keys` to the value at the same index.
pub open spec fn map_of<V>(keys: Seq<Seq<char>>, values: Seq<V>) -> Map<Seq<char>, V> {
    Map::new(|k: Seq<char>| keys.contains(k), |k: Seq<char>| values[keys.index_of(k)])
}

/// In a sequence without repeats, `index_of` finds each index again.
pub proof fn lemma_index_of<A>(keys: Seq<A>, i: int)
    requires
        forall|a: int, b: int| 0 <= a < b < keys.len() ==> keys[a] != keys[b],
        0 <= i < keys.len(),
    ensures
        keys.contains(keys[i]),
        keys.index_of(keys[i]) == i,
{
    assert(keys.contains(keys[i]));
    let j = keys.index_of(keys[i]);
    assert(0 <= j < keys.len() && keys[j] == keys[i]);
    if j < i {
    } else if i < j {
    }
}

/// Each key of `map_of` maps to the value at its index.
pub proof fn lemma_map_of_index<V>(keys: Seq<Seq<char>>, values: Seq<V>, i: int)
    requires
        distinct(keys),
        0 <= i < keys.len(),
    ensures
        map_of(keys, values).contains_key(keys[i]),
        map_of(keys, values)[keys[i]] == values[i],
{
    lemma_index_of(keys, i);
}

/// Appending a new key with its value inserts it into the map.
pub proof fn lemma_map_of_push<V>(keys: Seq<Seq<char>>, values: Seq<V>, k: Seq<char>, v: V)
    requires
        distinct(keys),
        keys.len() == values.len(),
        !keys.contains(k),
    ensures
        distinct(keys.push(k)),
        map_of(keys.push(k), values.push(v)) == map_of(keys, values).insert(k, v),
{
    let keys2 = keys.push(k);
    let values2 = values.push(v);
    assert forall|a: int, b: int| 0 <= a < b < keys2.len() implies keys2[a] != keys2[b] by {
        if b == keys.len() {
            assert(keys.contains(keys[a]));
        }
    }
    let lhs = map_of(keys2, values2);
    let rhs = map_of(keys, values).insert(k, v);
    assert forall|x: Seq<char>| lhs.contains_key(x) == rhs.contains_key(x) by {
        if keys2.contains(x) {
            let j = keys2.index_of(x);
            if j < keys.len() {
                assert(keys[j] == x);
            }
        }
        if keys.contains(x) {
            let j = keys.index_of(x);
            assert(keys2[j] == x);
        }
        if x == k {
            assert(keys2[keys.len() as int] == k);
        }
    }
    assert forall|x: Seq<char>| lhs.contains_key(x) implies lhs[x] == rhs[x] by {
        let j = keys2.index_of(x);
        lemma_index_of(keys2, j);
        if j < keys.len() {
            lemma_index_of(keys, j);
        }
    }
    assert(lhs =~= rhs);
}

/// Replacing the value at index `i` overwrites the value of the key at `i`.
pub proof fn lemma_map_of_update<V>(keys: Seq<Seq<char>>, values: Seq<V>, i: int, v: V)
    requires
        distinct(keys),
        keys.len() == values.len(),
        0 <= i < keys.len(),
    ensures
        map_of(keys, values.update(i, v)) == map_of(keys, values).insert(keys[i], v),
{
    let lhs = map_of(keys, values.update(i, v));
    let rhs = map_of(keys, values).insert(keys[i], v);
    lemma_index_of(keys, i);
    assert forall|x: Seq<char>| lhs.contains_key(x) implies lhs[x] == rhs[x] by {
        let j = keys.index_of(x);
        lemma_index_of(keys, j);
    }
    assert(lhs =~= rhs);
}

/// Dropping index `i` from both sequences removes the key at `i` from the map.
pub proof fn lemma_map_of_remove<V>(keys: Seq<Seq<char>>, values: Seq<V>, i: int)
    requires
        distinct(keys),
        keys.len() == values.len(),
        0 <= i < keys.len(),
    ensures
        distinct(keys.remove(i)),
        map_of(keys.remove(i), values.remove(i)) == map_of(keys, values).remove(keys[i]),
{
    let keys2 = keys.remove(i);
    let values2 = values.remove(i);
    assert forall|a: int, b: int| 0 <= a < b < keys2.len() implies keys2[a] != keys2[b] by {
        let a0 = if a < i { a } else { a + 1 };
        let b0 = if b < i { b } else { b + 1 };
        assert(keys2[a] == keys[a0] && keys2[b] == keys[b0]);
    }
    let lhs = map_of(keys2, values2);
    let rhs = map_of(keys, values).remove(keys[i]);
    assert forall|x: Seq<char>| lhs.contains_key(x) == rhs.contains_key(x) by {
        if keys2.contains(x) {
            let j = keys2.index_of(x);
            let j0 = if j < i { j } else { j + 1 };
            assert(keys[j0] == x);
            assert(keys.contains(x));
        }
        if keys.contains(x) && x != keys[i] {
            let j = keys.index_of(x);
            let j2 = if j < i { j } else { j - 1 };
            assert(keys2[j2] == x);
        }
    }
    assert forall|x: Seq<char>| lhs.contains_key(x) implies lhs[x] == rhs[x] by {
        let j = keys2.index_of(x);
        lemma_index_of(keys2, j);
        let j0 = if j < i { j } else { j + 1 };
        assert(keys[j0] == x);
        lemma_index_of(keys, j0);
    }
    assert(lhs =~= rhs);
}

impl<V> StrMap<V> {
    /// The keys, in insertion order.
    pub closed spec fn keys(&self) -> Seq<Seq<char>> {
        entry_keys(self.entries@)
    }

    /// The values, each at the index of its key in `keys()`.
    pub closed spec fn values(&self) -> Seq<V> {
        entry_values(self.entries@)
    }

    #[verifier::type_invariant]
    pub closed spec fn inv(&self) -> bool {
        distinct(self.keys())
    }

    /// The map as a mathematical map from key text to value.
    pub open spec fn view(&self) -> Map<Seq<char>, V> {
        map_of(self.keys(), self.values())
    }

    /// The keys and the values have one length, and well-formed maps hold no key twice.
    pub proof fn lemma_shape(&self)
        requires
            self.inv(),
        ensures
            self.keys().len() == self.values().len(),
            distinct(self.keys()),
            self@.dom().finite(),
            self@.dom().len() == self.keys().len(),
            forall|i: int| 0 <= i < self.keys().len() ==> self@.contains_key(#[trigger] self.keys()[i]) && self@[self.keys()[i]] == self.values()[i],
    {
        let keys = self.keys();
        assert forall|i: int| 0 <= i < keys.len() implies self@.contains_key(#[trigger] keys[i]) && self@[keys[i]] == self.values()[i] by {
            lemma_map_of_index(keys, self.values(), i);
        }
        assert(self@.dom() =~= keys.to_set());
        keys.unique_seq_to_set();
    }

    /// The empty map.
    pub fn new() -> (m: Self)
        ensures
            m@ == Map::<Seq<char>, V>::empty(),
            m.keys() == Seq::<Seq<char>>::empty(),
    {
        let m = StrMap { entries: Vec::new() };
        assert(m.keys() =~= Seq::<Seq<char>>::empty());
        assert(m@ =~= Map::<Seq<char>, V>::empty());
        m
    }

    /// How many keys the map holds.
    pub fn len(&self) -> (n: usize)
        ensures
            n == self.keys().len(),
    {
        self.entries.len()
    }

    /// Whether the map holds no key.
    pub fn is_empty(&self) -> (r: bool)
        ensures
            r == (self.keys().len() == 0),
    {
        self.entries.len() == 0
    }

    /// The index of `key`, if the map holds it.
    pub fn position(&self, key: &String) -> (r: Option<usize>)
        ensures
            match r {
                Some(i) => i < self.keys().len() && self.keys()[i as int] == key@,
                None => !self.keys().contains(key@),
            },
    {
        let mut i: usize = 0;
        while i < self.entries.len()
            invariant
                i <= self.entries.len(),
                forall|j: int| 0 <= j < i ==> self.keys()[j] != key@,
            decreases self.entries.len() - i,
        {
            if self.entries[i].key == *key {
                return Some(i);
            }
            i += 1;
        }
        None
    }
    /// Whether the map holds `key`.
    pub fn contains_key(&self, key: &String) -> (r: bool)
        ensures
            r == self@.contains_key(key@),
    {
        self.position(key).is_some()
    }

    /// The value under `key`, if the map holds it.
    pub fn get(&self, key: &String) -> (r: Option<&V>)
        ensures
            match r {
                Some(v) => self@.contains_key(key@) && *v == self@[key@],
                None => !self@.contains_key(key@),
            },
    {
        proof {
            use_type_invariant(self);
            self.lemma_shape();
        }
        match self.position(key) {
            Some(i) => Some(&self.entries[i].value),
            None => None,
        }
    }

    /// The key at index `i` of the insertion order.
    pub fn key_at(&self, i: usize) -> (k: &String)
        requires
            i < self.keys().len(),
        ensures
            k@ == self.keys()[i as int],
    {
        &self.entries[i].key
    }

    /// The value at index `i` of the insertion order.
    pub fn value_at(&self, i: usize) -> (v: &V)
        requires
            i < self.keys().len(),
        ensures
            *v == self.values()[i as int],
    {
        &self.entries[i].value
    }

    /// Puts `value` under `key`. A key that the map holds keeps its place and
    /// gets the new value; the old one is returned. A new key goes to the end.
    pub fn insert(&mut self, key: String, value: V) -> (previous: Option<V>)
        ensures
            final(self)@ == old(self)@.insert(key@, value),
            previous == (if old(self)@.contains_key(key@) { Some(old(self)@[key@]) } else { None::<V> }),
            old(self)@.contains_key(key@) ==> final(self).keys() == old(self).keys(),
            !old(self)@.contains_key(key@) ==> final(self).keys() == old(self).keys().push(key@),
    {
        proof {
            use_type_invariant(&*self);
            self.lemma_shape();
        }
        let ghost before = *self;
        match self.position(&key) {
            Some(i) => {
                let mut entries = Vec::new();
                std::mem::swap(&mut entries, &mut self.entries);
                let slot = entries.remove(i);
                entries.insert(i, Entry { key, value });
                proof {
                    assert(entry_keys(entries@) =~= before.keys());
                    assert(entry_values(entries@) =~= before.values().update(i as int, value));
                    lemma_map_of_update(before.keys(), before.values(), i as int, value);
                }
                self.entries = entries;
                Some(slot.value)
            },
            None => {
                let mut entries = Vec::new();
                std::mem::swap(&mut entries, &mut self.entries);
                entries.push(Entry { key, value });
                proof {
                    assert(entry_keys(entries@) =~= before.keys().push(key@));
                    assert(entry_values(entries@) =~= before.values().push(value));
                    lemma_map_of_push(before.keys(), before.values(), key@, value);
                }
                self.entries = entries;
                None
            },
        }
    }

    /// Takes `key` and its value out of the map. The other entries keep their order.
    pub fn remove(&mut self, key: &String) -> (taken: Option<V>)
        ensures
            final(self)@ == old(self)@.remove(key@),
            taken == (if old(self)@.contains_key(key@) { Some(old(self)@[key@]) } else { None::<V> }),
            !old(self)@.contains_key(key@) ==> final(self).keys() == old(self).keys(),
            old(self)@.contains_key(key@) ==> final(self).keys() == old(self).keys().remove(old(self).keys().index_of(key@)),
    {
        proof {
            use_type_invariant(&*self);
            self.lemma_shape();
        }
        let ghost before = *self;
        match self.position(key) {
            Some(i) => {
                let mut entries = Vec::new();
                std::mem::swap(&mut entries, &mut self.entries);
                let entry = entries.remove(i);
                proof {
                    assert(entry_keys(entries@) =~= before.keys().remove(i as int));
                    assert(entry_values(entries@) =~= before.values().remove(i as int));
                    lemma_index_of(before.keys(), i as int);
                    lemma_map_of_remove(before.keys(), before.values(), i as int);
                }
                self.entries = entries;
                Some(entry.value)
            },
            None => {
                assert(self@ =~= before@.remove(key@));
                None
            },
        }
    }
    /// Moves every entry of `other` into the map. Where both hold a key, the
    /// value of `other` wins. The keys that the map held keep their places;
    /// the new ones follow them.
    pub fn extend(&mut self, other: StrMap<V>)
        ensures
            final(self)@ == old(self)@.union_prefer_right(other@),
            old(self).keys().is_prefix_of(final(self).keys()),
    {
        proof {
            use_type_invariant(&other);
            other.lemma_shape();
        }
        let ghost before = self@;
        let ghost held = self.keys();
        let ghost keys = other.keys();
        let ghost values = other.values();
        let mut rest = other.entries;
        while rest.len() > 0
            invariant
                held.is_prefix_of(self.keys()),
                distinct(keys),
                keys.len() == values.len(),
                rest@.len() <= keys.len(),
                entry_keys(rest@) == keys.take(rest@.len() as int),
                entry_values(rest@) == values.take(rest@.len() as int),
                forall|k: Seq<char>| #[trigger]
                    self@.contains_key(k) <==> before.contains_key(k) || in_tail(
                        keys,
                        rest@.len() as int,
                        k,
                    ),
                forall|i: int|
                    rest@.len() <= i < keys.len() ==> self@[#[trigger] keys[i]] == values[i],
                forall|k: Seq<char>|
                    before.contains_key(k) && !in_tail(keys, rest@.len() as int, k)
                        ==> #[trigger] self@[k] == before[k],
            decreases rest.len(),
        {
            let ghost j = rest@.len() as int - 1;
            let ghost full = rest@;
            let entry = rest.pop().unwrap();
            proof {
                assert(entry.key@ == entry_keys(full)[j]);
                assert(entry.value == entry_values(full)[j]);
                assert(entry_keys(rest@) =~= keys.take(j));
                assert(entry_values(rest@) =~= values.take(j));
            }
            self.insert(entry.key, entry.value);
            proof {
                assert forall|k: Seq<char>| #[trigger]
                    self@.contains_key(k) <==> before.contains_key(k) || in_tail(keys, j, k) by {
                    if in_tail(keys, j, k) {
                        let i = choose|i: int| j <= i < keys.len() && keys[i] == k;
                        if i != j {
                            assert(in_tail(keys, j + 1, k));
                        }
                    }
                    if in_tail(keys, j + 1, k) {
                        let i = choose|i: int| j + 1 <= i < keys.len() && keys[i] == k;
                        assert(j <= i < keys.len() && keys[i] == k);
                    }
                    if k == keys[j] {
                        assert(j <= j < keys.len() && keys[j] == k);
                    }
                }
                assert forall|k: Seq<char>|
                    before.contains_key(k) && !in_tail(keys, j, k) implies #[trigger] self@[k]
                    == before[k] by {
                    assert(k != keys[j]) by {
                        if k == keys[j] {
                            assert(j <= j < keys.len() && keys[j] == k);
                        }
                    }
                    if in_tail(keys, j + 1, k) {
                        let i = choose|i: int| j + 1 <= i < keys.len() && keys[i] == k;
                        assert(j <= i < keys.len() && keys[i] == k);
                    }
                }
            }
        }
        proof {
            assert forall|k: Seq<char>| other@.contains_key(k) <==> in_tail(keys, 0, k) by {
                if other@.contains_key(k) {
                    let i = keys.index_of(k);
                    assert(0 <= i < keys.len() && keys[i] == k);
                }
                if in_tail(keys, 0, k) {
                    let i = choose|i: int| 0 <= i < keys.len() && keys[i] == k;
                    assert(keys.contains(k));
                }
            }
            assert forall|k: Seq<char>| other@.contains_key(k) implies self@[k] == other@[k] by {
                let i = keys.index_of(k);
                lemma_map_of_index(keys, values, i);
            }
            assert(self@ =~= before.union_prefer_right(other@));
        }
    }
}

/// Whether `k` stands in `keys` at index `from` or later.
pub open spec fn in_tail(keys: Seq<Seq<char>>, from: int, k: Seq<char>) -> bool {
    exists|i: int| from <= i < keys.len() && keys[i] == k
}

} // verus!
