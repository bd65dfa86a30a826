//! A keyed store: the in-memory stand-in for the dictionaries in which the
//! services keep their records. A store is a finite map; no key occurs
//! twice in it.

use vstd::prelude::*;
use crate::identity::PackageHash;
use crate::token::TokenIdentifier;

verus! {

/// A key of a store: two keys are the same key where their views agree.
pub trait StoreKey: View + Sized {
    /// Whether `self` and `other` are the same key.
    fn same_key(&self, other: &Self) -> (r: bool)
        ensures
            r == (self@ == other@),
    ;
}

impl StoreKey for u64 {
    fn same_key(&self, other: &Self) -> (r: bool) {
        *self == *other
    }
}

impl StoreKey for PackageHash {
    fn same_key(&self, other: &Self) -> (r: bool) {
        *self == *other
    }
}

impl StoreKey for TokenIdentifier {
    fn same_key(&self, other: &Self) -> (r: bool) {
        *self == *other
    }
}

/// No two entries have the same key.
pub open spec fn distinct_keys<K: View, V>(entries: Seq<(K, V)>) -> bool {
    forall|i: int, j: int| 0 <= i < j < entries.len() ==> entries[i].0@ != entries[j].0@
}

/// The entry at position `i` has the key `key`.
pub open spec fn holds_at<K: View, V>(entries: Seq<(K, V)>, key: K::V, i: int) -> bool {
    0 <= i < entries.len() && entries[i].0@ == key
}

/// The map that a list of entries stands for.
pub open spec fn entries_map<K: View, V>(entries: Seq<(K, V)>) -> Map<K::V, V> {
    Map::new(
        |key: K::V| exists|i: int| holds_at(entries, key, i),
        |key: K::V| entries[choose|i: int| holds_at(entries, key, i)].1,
    )
}

/// A store from keys to values.
pub struct Table<K: View, V> {
    entries: Vec<(K, V)>,
}

impl<K: View, V> View for Table<K, V> {
    type V = Map<K::V, V>;

    closed spec fn view(&self) -> Map<K::V, V> {
        entries_map(self.entries@)
    }
}

impl<K: View, V> Table<K, V> {
    #[verifier::type_invariant]
    spec fn well_formed(&self) -> bool {
        distinct_keys(self.entries@)
    }
}

impl<K: StoreKey, V> Table<K, V> {
    /// The empty store.
    pub fn new() -> (r: Self)
        ensures
            r@ == Map::<K::V, V>::empty(),
    {
        let r = Table { entries: Vec::new() };
        assert(r@ =~= Map::<K::V, V>::empty());
        r
    }

    /// Where `key` stands among the entries, if it does.
    fn find(&self, key: &K) -> (r: Option<usize>)
        ensures
            match r {
                Some(i) => holds_at(self.entries@, key@, i as int),
                None => forall|i: int| !holds_at(self.entries@, key@, i),
            },
    {
        let mut i: usize = 0;
        while i < self.entries.len()
            invariant
                i <= self.entries.len(),
                forall|j: int| 0 <= j < i ==> self.entries@[j].0@ != key@,
            decreases self.entries.len() - i,
        {
            if self.entries[i].0.same_key(key) {
                return Some(i);
            }
            i += 1;
        }
        None
    }

    /// Whether the store holds a value under `key`.
    pub fn contains_key(&self, key: &K) -> (r: bool)
        ensures
            r == self@.contains_key(key@),
    {
        self.find(key).is_some()
    }

    /// The value kept under `key`, if there is one.
    pub fn get(&self, key: &K) -> (r: Option<&V>)
        ensures
            self@.contains_key(key@) ==> r == Some(&self@[key@]),
            !self@.contains_key(key@) ==> r is None,
    {
        proof {
            use_type_invariant(self);
        }
        match self.find(key) {
            Some(i) => {
                assert(holds_at(self.entries@, key@, i as int));
                Some(&self.entries[i].1)
            },
            None => None,
        }
    }

    /// Puts `value` under `key`, in place of what was kept there.
    pub fn insert(&mut self, key: K, value: V)
        ensures
            final(self)@ == old(self)@.insert(key@, value),
    {
        proof {
            use_type_invariant(&*self);
        }
        let ghost before = self.entries@;
        let found = self.find(&key);
        let mut entries = Vec::new();
        core::mem::swap(&mut self.entries, &mut entries);
        match found {
            Some(i) => {
                entries[i] = (key, value);
                proof {
                    let after = entries@;
                    assert forall|k: K::V, j: int| holds_at(after, k, j) == holds_at(before, k, j) by {}
                    assert(distinct_keys(after)) by {
                        assert forall|a: int, b: int| 0 <= a < b < after.len() implies after[a].0@
                            != after[b].0@ by {
                            assert(holds_at(before, after[a].0@, a));
                            assert(holds_at(before, after[b].0@, b));
                        }
                    }
                    assert(entries_map(after) =~= entries_map(before).insert(key@, value)) by {
                        assert(holds_at(after, key@, i as int));
                    }
                }
            },
            None => {
                entries.push((key, value));
                proof {
                    let after = entries@;
                    let last = before.len() as int;
                    assert(holds_at(after, key@, last));
                    assert(distinct_keys(after)) by {
                        assert forall|a: int, b: int| 0 <= a < b < after.len() implies after[a].0@
                            != after[b].0@ by {
                            assert(holds_at(before, after[a].0@, a));
                        }
                    }
                    assert forall|k: K::V, j: int| holds_at(before, k, j) implies holds_at(
                        after,
                        k,
                        j,
                    ) by {}
                    assert forall|k: K::V, j: int| holds_at(after, k, j) && j != last implies holds_at(
                        before,
                        k,
                        j,
                    ) by {}
                    assert(entries_map(after) =~= entries_map(before).insert(key@, value));
                }
            },
        }
        self.entries = entries;
    }

    /// Takes away what is kept under `key`, if anything.
    pub fn remove(&mut self, key: &K)
        ensures
            final(self)@ == old(self)@.remove(key@),
    {
        proof {
            use_type_invariant(&*self);
        }
        let ghost before = self.entries@;
        let found = self.find(key);
        let mut entries = Vec::new();
        core::mem::swap(&mut self.entries, &mut entries);
        match found {
            Some(i) => {
                entries.remove(i);
                proof {
                    let after = entries@;
                    assert forall|k: K::V, j: int| holds_at(after, k, j) implies holds_at(
                        before,
                        k,
                        if j < i { j } else { j + 1 },
                    ) by {}
                    assert forall|k: K::V, j: int| holds_at(before, k, j) && j != i implies holds_at(
                        after,
                        k,
                        if j < i { j } else { j - 1 },
                    ) by {}
                    assert(entries_map(after) =~= entries_map(before).remove(key@));
                }
            },
            None => {
                assert(entries_map(before) =~= entries_map(before).remove(key@));
            },
        }
        self.entries = entries;
    }
}

} // verus!
