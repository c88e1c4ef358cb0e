//! Maps from names to values, with lookups that read only the bindings
//! filed under the number of the name, and lookups by name in lists.

use std::collections::HashMap;
use vstd::prelude::*;
use vstd::std_specs::hash::*;
use vstd::string::*;
use vstd::utf8::*;
use crate::text::str_eq;

verus! {

/// What a list of `(name, value)` pairs yields for `key`: the value of the
/// last pair of that name, so that a later pair shadows an earlier one.
pub open spec fn lookup<V>(entries: Seq<(String, V)>, key: Seq<char>) -> Option<V>
    decreases entries.len(),
{
    if entries.len() == 0 {
        None
    } else if entries.last().0@ == key {
        Some(entries.last().1)
    } else {
        lookup(entries.drop_last(), key)
    }
}

/// The last position at which `key` stands in `names`.
pub open spec fn last_position(names: Seq<Seq<char>>, key: Seq<char>) -> Option<int>
    decreases names.len(),
{
    if names.len() == 0 {
        None
    } else if names.last() == key {
        Some(names.len() - 1)
    } else {
        last_position(names.drop_last(), key)
    }
}

/// `last_position` gives a position that holds the key and behind which the
/// key does not occur again; it gives none only if the key occurs nowhere.
pub proof fn lemma_last_position(names: Seq<Seq<char>>, key: Seq<char>)
    ensures
        match last_position(names, key) {
            Some(i) => 0 <= i < names.len() && names[i] == key && forall|j: int|
                i < j < names.len() ==> names[j] != key,
            None => forall|j: int| 0 <= j < names.len() ==> names[j] != key,
        },
    decreases names.len(),
{
    if names.len() > 0 && names.last() != key {
        lemma_last_position(names.drop_last(), key);
        match last_position(names.drop_last(), key) {
            Some(i) => {
                assert forall|j: int| i < j < names.len() implies names[j] != key by {
                    if j < names.len() - 1 {
                        assert(names.drop_last()[j] == names[j]);
                    }
                }
            },
            None => {
                assert forall|j: int| 0 <= j < names.len() implies names[j] != key by {
                    if j < names.len() - 1 {
                        assert(names.drop_last()[j] == names[j]);
                    }
                }
            },
        }
    }
}

/// A list of pairs whose names are `names`, position by position, yields for
/// each key the value that stands at the key's last position.
pub proof fn lemma_lookup_position<V>(entries: Seq<(String, V)>, names: Seq<Seq<char>>, key: Seq<char>)
    requires
        entries.len() == names.len(),
        forall|i: int| 0 <= i < entries.len() ==> (#[trigger] entries[i]).0@ == names[i],
    ensures
        match last_position(names, key) {
            Some(i) => 0 <= i < names.len() && lookup(entries, key) == Some(entries[i].1),
            None => lookup(entries, key) is None,
        },
    decreases entries.len(),
{
    if entries.len() > 0 {
        assert(entries.last().0@ == names.last());
        if names.last() != key {
            let e = entries.drop_last();
            let n = names.drop_last();
            assert forall|i: int| 0 <= i < e.len() implies (#[trigger] e[i]).0@ == n[i] by {
                assert(e[i] == entries[i]);
            }
            lemma_lookup_position(e, n, key);
        }
    }
}

/// The pair at position `p` is the last one of the name `key`, so it is
/// what the list yields for `key`.
pub proof fn lemma_lookup_last<V>(entries: Seq<(String, V)>, key: Seq<char>, p: int)
    requires
        0 <= p < entries.len(),
        entries[p].0@ == key,
        forall|q: int| p < q < entries.len() ==> (#[trigger] entries[q]).0@ != key,
    ensures
        lookup(entries, key) == Some(entries[p].1),
    decreases entries.len(),
{
    if p < entries.len() - 1 {
        let rest = entries.drop_last();
        assert(entries[entries.len() - 1].0@ != key);
        assert(rest[p] == entries[p]);
        assert forall|q: int| p < q < rest.len() implies (#[trigger] rest[q]).0@ != key by {
            assert(rest[q] == entries[q]);
        }
        lemma_lookup_last(rest, key, p);
    }
}

/// A list without a pair of the name `key` yields nothing for `key`.
pub proof fn lemma_lookup_none<V>(entries: Seq<(String, V)>, key: Seq<char>)
    requires
        forall|q: int| 0 <= q < entries.len() ==> (#[trigger] entries[q]).0@ != key,
    ensures
        lookup(entries, key) is None,
    decreases entries.len(),
{
    if entries.len() > 0 {
        let rest = entries.drop_last();
        assert(entries[entries.len() - 1].0@ != key);
        assert forall|q: int| 0 <= q < rest.len() implies (#[trigger] rest[q]).0@ != key by {
            assert(rest[q] == entries[q]);
        }
        lemma_lookup_none(rest, key);
    }
}

/// The number under which bytes are filed.
pub open spec fn byte_hash(bytes: Seq<u8>) -> u64
    decreases bytes.len(),
{
    if bytes.len() == 0 {
        0
    } else {
        ((byte_hash(bytes.drop_last()) * 31 + bytes.last()) % 0x1fff_ffff_ffff_ffff) as u64
    }
}

/// The number under which a name is filed: that of its bytes.
pub open spec fn hash_of(name: Seq<char>) -> u64 {
    byte_hash(encode_utf8(name))
}

/// The number under which `name` is filed.
pub fn hash_name(name: &str) -> (h: u64)
    ensures
        h == hash_of(name@),
{
    let bytes = name.as_bytes();
    let mut h: u64 = 0;
    let mut i: usize = 0;
    assert(bytes@.take(0) =~= Seq::<u8>::empty());
    while i < bytes.len()
        invariant
            i <= bytes.len(),
            h == byte_hash(bytes@.take(i as int)),
            h < 0x1fff_ffff_ffff_ffff,
        decreases bytes.len() - i,
    {
        proof {
            assert(bytes@.take(i + 1).drop_last() =~= bytes@.take(i as int));
            assert(bytes@.take(i + 1).last() == bytes@[i as int]);
        }
        let wide: u128 = h as u128 * 31 + bytes[i] as u128;
        h = (wide % 0x1fff_ffff_ffff_ffff) as u64;
        i = i + 1;
    }
    assert(bytes@.take(i as int) =~= bytes@);
    h
}

/// A map from names to values. It keeps the bindings in the order in which
/// they were made, and files the position of each under the number of its
/// name, so that a lookup reads only the bindings filed under one number.
#[derive(Debug)]
pub struct NameMap<V> {
    entries: Vec<(String, V)>,
    index: HashMap<u64, Vec<usize>>,
}

impl<V: Clone> Clone for NameMap<V> {
    /// A map with the same names, bound in the same order to clones of the
    /// values.
    fn clone(&self) -> (m: NameMap<V>) {
        let mut m = NameMap::new();
        let mut i: usize = 0;
        while i < self.entries.len()
            invariant
                i <= self.entries.len(),
            decreases self.entries.len() - i,
        {
            m.insert(self.entries[i].0.clone(), self.entries[i].1.clone());
            i = i + 1;
        }
        m
    }
}

/// Whether `index` files the positions of `entries`: each position stands
/// under the number of its name and under no other, and the positions under
/// one number ascend.
pub open spec fn files<V>(index: Map<u64, Vec<usize>>, entries: Seq<(String, V)>) -> bool {
    &&& forall|h: u64, j: int|
        #![trigger index[h]@[j]]
        index.dom().contains(h) && 0 <= j < index[h]@.len() ==> index[h]@[j] < entries.len()
            && hash_of(entries[index[h]@[j] as int].0@) == h
    &&& forall|h: u64, j: int, k: int|
        #![trigger index[h]@[j], index[h]@[k]]
        index.dom().contains(h) && 0 <= j < k < index[h]@.len() ==> index[h]@[j] < index[h]@[k]
    &&& forall|p: int|
        0 <= p < entries.len() ==> index.dom().contains(hash_of((#[trigger] entries[p]).0@))
            && index[hash_of(entries[p].0@)]@.contains(p as usize)
}

impl<V> NameMap<V> {
    #[verifier::type_invariant]
    spec fn filed(self) -> bool {
        self.index@.dom().finite() && files(self.index@, self.entries@)
    }

    /// The bindings in the order in which they were made.
    pub closed spec fn bindings(&self) -> Seq<(String, V)> {
        self.entries@
    }

    /// What the map holds for `key`: the value of the last binding of that
    /// name.
    pub open spec fn spec_get(&self, key: Seq<char>) -> Option<V> {
        lookup(self.bindings(), key)
    }

    /// A map without bindings.
    pub fn new() -> (m: NameMap<V>)
        ensures
            m.bindings() == Seq::<(String, V)>::empty(),
    {
        NameMap { entries: Vec::new(), index: HashMap::new() }
    }

    /// How many bindings were made.
    pub fn len(&self) -> (n: usize)
        ensures
            n == self.bindings().len(),
    {
        self.entries.len()
    }

    /// The bindings in the order in which they were made.
    pub fn entries(&self) -> (r: &Vec<(String, V)>)
        ensures
            r@ == self.bindings(),
    {
        &self.entries
    }

    /// Binds `name` to `value`; an earlier binding of `name` is shadowed.
    pub fn insert(&mut self, name: String, value: V)
        ensures
            final(self).bindings() == old(self).bindings().push((name, value)),
            forall|key: Seq<char>| #[trigger]
                final(self).spec_get(key) == if key == name@ {
                    Some(value)
                } else {
                    old(self).spec_get(key)
                },
    {
        broadcast use group_hash_axioms;
        // The bindings and their filing change together: take the map apart
        // and put it together again.

        let mut map = NameMap::new();
        std::mem::swap(self, &mut map);
        proof {
            use_type_invariant(&map);
        }
        let NameMap { mut entries, mut index } = map;
        let ghost before = entries@;
        let ghost filed = index@;
        let h = hash_name(name.as_str());
        let position = entries.len();
        let mut bucket = match index.remove(&h) {
            Some(bucket) => bucket,
            None => Vec::new(),
        };
        let ghost shorter = bucket@;
        bucket.push(position);
        entries.push((name, value));
        index.insert(h, bucket);
        proof {
            let after = entries@;
            assert(after.drop_last() =~= before);
            assert forall|p: int| 0 <= p < after.len() implies index@.dom().contains(
                hash_of((#[trigger] after[p]).0@),
            ) && index@[hash_of(after[p].0@)]@.contains(p as usize) by {
                if p < before.len() {
                    assert(after[p] == before[p]);
                    let g = hash_of(before[p].0@);
                    assert(filed.dom().contains(g));
                    if g == h {
                        let j = choose|j: int| 0 <= j < shorter.len() && shorter[j] == p as usize;
                        assert(bucket@[j] == p as usize);
                    }
                } else {
                    assert(bucket@[shorter.len() as int] == position);
                }
            }
            assert forall|g: u64, j: int|
                #![trigger index@[g]@[j]]
                index@.dom().contains(g) && 0 <= j < index@[g]@.len() implies index@[g]@[j] < after.len()
                    && hash_of(after[index@[g]@[j] as int].0@) == g by {
                if g == h {
                    if j < shorter.len() {
                        assert(bucket@[j] == filed[h]@[j]);
                        assert(after[filed[h]@[j] as int] == before[filed[h]@[j] as int]);
                    }
                } else {
                    assert(index@[g] == filed[g]);
                    assert(after[filed[g]@[j] as int] == before[filed[g]@[j] as int]);
                }
            }
            assert forall|g: u64, j: int, k: int|
                #![trigger index@[g]@[j], index@[g]@[k]]
                index@.dom().contains(g) && 0 <= j < k < index@[g]@.len() implies index@[g]@[j]
                    < index@[g]@[k] by {
                if g == h {
                    if k < shorter.len() {
                        assert(bucket@[j] == filed[h]@[j] && bucket@[k] == filed[h]@[k]);
                    } else {
                        assert(bucket@[j] == filed[h]@[j]);
                    }
                } else {
                    assert(index@[g] == filed[g]);
                }
            }
        }
        *self = NameMap { entries, index };
    }

    /// What the map holds for `key`.
    pub fn get(&self, key: &str) -> (r: Option<&V>)
        ensures
            match r {
                Some(v) => self.spec_get(key@) == Some(*v),
                None => self.spec_get(key@) is None,
            },
    {
        broadcast use group_hash_axioms;

        proof {
            use_type_invariant(self);
        }
        let h = hash_name(key);
        let bucket = match self.index.get(&h) {
            Some(bucket) => bucket,
            None => {
                proof {
                    lemma_lookup_none(self.entries@, key@);
                }
                return None;
            },
        };
        let count = self.entries.len();
        let mut j: usize = bucket.len();
        while j > 0
            invariant
                j <= bucket.len(),
                count == self.entries@.len(),
                self.index@.dom().contains(h),
                *bucket == self.index@[h],
                h == hash_of(key@),
                files(self.index@, self.entries@),
                forall|k: int| j <= k < bucket.len() ==> self.entries@[(#[trigger] bucket@[k]) as int].0@ != key@,
            decreases j,
        {
            j = j - 1;
            let position = bucket[j];
            assert(position == self.index@[h]@[j as int]);
            if str_eq(self.entries[position].0.as_str(), key) {
                proof {
                    assert forall|q: int| position < q < self.entries@.len() implies (
                    #[trigger] self.entries@[q]).0@ != key@ by {
                        if self.entries@[q].0@ == key@ {
                            let k = choose|k: int| 0 <= k < bucket@.len() && bucket@[k] == q as usize;
                            if k < j {
                                assert(self.index@[h]@[k] < self.index@[h]@[j as int]);
                            }
                        }
                    }
                    lemma_lookup_last(self.entries@, key@, position as int);
                }
                return Some(&self.entries[position].1);
            }
        }
        proof {
            assert forall|q: int| 0 <= q < self.entries@.len() implies (#[trigger] self.entries@[q]).0@
                != key@ by {
                if self.entries@[q].0@ == key@ {
                    let k = choose|k: int| 0 <= k < bucket@.len() && bucket@[k] == q as usize;
                    assert(self.entries@[bucket@[k] as int].0@ != key@);
                }
            }
            lemma_lookup_none(self.entries@, key@);
        }
        None
    }

    /// Whether the map holds something for `key`.
    pub fn contains_key(&self, key: &str) -> (r: bool)
        ensures
            r == self.spec_get(key@).is_some(),
    {
        self.get(key).is_some()
    }
}

} // verus!
