//! A small map kept as a list of entries with distinct keys.

use vstd::prelude::*;

use crate::text::string_eq;

verus! {

/// A key that can be compared for equality of its value.
pub trait MapKey: Sized {
    /// The value by which keys are told apart.
    type KeyView;

    spec fn key_view(&self) -> Self::KeyView;

    fn key_eq(&self, other: &Self) -> (r: bool)
        ensures
            r == (self.key_view() == other.key_view()),
    ;
}

impl MapKey for String {
    type KeyView = Seq<char>;

    open spec fn key_view(&self) -> Seq<char> {
        self@
    }

    fn key_eq(&self, other: &Self) -> (r: bool) {
        string_eq(self, other)
    }
}

/// A map with keys `K` (told apart by their key views) and values `V`.
pub struct AssocMap<K: MapKey, V> {
    entries: Vec<(K, V)>,
}

impl<K: MapKey, V> AssocMap<K, V> {
    /// No key occurs twice among the entries.
    #[verifier::type_invariant]
    closed spec fn keys_distinct(self) -> bool {
        forall|i: int, j: int|
            0 <= i < self.entries@.len() && 0 <= j < self.entries@.len() && i != j
                ==> #[trigger] self.entries@[i].0.key_view() != #[trigger] self.entries@[j].0.key_view()
    }

    /// Whether some entry has key `k`.
    closed spec fn has_key(&self, k: K::KeyView) -> bool {
        exists|i: int| 0 <= i < self.entries@.len() && #[trigger] self.entries@[i].0.key_view() == k
    }

    /// The map's contents.
    pub closed spec fn view(&self) -> Map<K::KeyView, V> {
        Map::new(
            |k: K::KeyView| self.has_key(k),
            |k: K::KeyView|
                self.entries@[choose|i: int|
                    0 <= i < self.entries@.len() && #[trigger] self.entries@[i].0.key_view() == k].1,
        )
    }

    /// The entries in order, as pairs of key view and value.
    pub closed spec fn entry_seq(&self) -> Seq<(K::KeyView, V)> {
        self.entries@.map_values(|e: (K, V)| (e.0.key_view(), e.1))
    }

    proof fn lemma_entry(&self, i: int)
        requires
            self.keys_distinct(),
            0 <= i < self.entries@.len(),
        ensures
            self.view().contains_key(self.entries@[i].0.key_view()),
            self.view()[self.entries@[i].0.key_view()] == self.entries@[i].1,
    {
        let k = self.entries@[i].0.key_view();
        assert(self.has_key(k));
        let c = choose|j: int| 0 <= j < self.entries@.len() && #[trigger] self.entries@[j].0.key_view() == k;
        assert(c == i);
    }

    proof fn lemma_entries(&self)
        requires
            self.keys_distinct(),
        ensures
            self.entry_seq().len() == self.view().dom().len(),
            forall|i: int|
                0 <= i < self.entry_seq().len() ==> {
                    &&& #[trigger] self.view().contains_key(self.entry_seq()[i].0)
                    &&& self.view()[self.entry_seq()[i].0] == self.entry_seq()[i].1
                },
            forall|k: K::KeyView|
                #[trigger] self.view().contains_key(k) ==> exists|i: int|
                    0 <= i < self.entry_seq().len() && #[trigger] self.entry_seq()[i].0 == k,
            forall|i: int, j: int|
                0 <= i < self.entry_seq().len() && 0 <= j < self.entry_seq().len() && i != j
                    ==> #[trigger] self.entry_seq()[i].0 != #[trigger] self.entry_seq()[j].0,
            self.view().dom().finite(),
    {
        assert forall|i: int| 0 <= i < self.entry_seq().len() implies {
            &&& #[trigger] self.view().contains_key(self.entry_seq()[i].0)
            &&& self.view()[self.entry_seq()[i].0] == self.entry_seq()[i].1
        } by {
            self.lemma_entry(i);
        }
        assert forall|k: K::KeyView| #[trigger] self.view().contains_key(k) implies exists|i: int|
            0 <= i < self.entry_seq().len() && #[trigger] self.entry_seq()[i].0 == k by {
            let i = choose|i: int| 0 <= i < self.entries@.len() && #[trigger] self.entries@[i].0.key_view() == k;
            assert(self.entry_seq()[i].0 == k);
        }
        let keys = self.entry_seq().map_values(|e: (K::KeyView, V)| e.0);
        assert(keys.no_duplicates());
        assert(keys.to_set() =~= self.view().dom()) by {
            assert forall|k: K::KeyView| keys.to_set().contains(k) implies self.view().dom().contains(k) by {
                let i = choose|i: int| 0 <= i < keys.len() && keys[i] == k;
                assert(self.view().contains_key(self.entry_seq()[i].0));
            }
            assert forall|k: K::KeyView| self.view().dom().contains(k) implies keys.to_set().contains(k) by {
                let i = choose|i: int| 0 <= i < self.entry_seq().len() && #[trigger] self.entry_seq()[i].0 == k;
                assert(keys[i] == k);
            }
        }
        keys.unique_seq_to_set();
    }

    /// An empty map.
    pub fn new() -> (r: Self)
        ensures
            r.view() == Map::<K::KeyView, V>::empty(),
    {
        let r = AssocMap { entries: Vec::new() };
        assert(r.view() =~= Map::<K::KeyView, V>::empty());
        r
    }

    /// The number of entries; every entry is in the map, and every key of the
    /// map comes from exactly one entry.
    pub fn len(&self) -> (r: usize)
        ensures
            r == self.entry_seq().len(),
            self.entry_seq().len() == self.view().dom().len(),
            forall|i: int|
                0 <= i < self.entry_seq().len() ==> {
                    &&& #[trigger] self.view().contains_key(self.entry_seq()[i].0)
                    &&& self.view()[self.entry_seq()[i].0] == self.entry_seq()[i].1
                },
            forall|k: K::KeyView|
                #[trigger] self.view().contains_key(k) ==> exists|i: int|
                    0 <= i < self.entry_seq().len() && #[trigger] self.entry_seq()[i].0 == k,
            forall|i: int, j: int|
                0 <= i < self.entry_seq().len() && 0 <= j < self.entry_seq().len() && i != j
                    ==> #[trigger] self.entry_seq()[i].0 != #[trigger] self.entry_seq()[j].0,
            self.view().dom().finite(),
    {
        proof {
            use_type_invariant(self);
            self.lemma_entries();
        }
        self.entries.len()
    }

    /// The entry at position `i`.
    pub fn entry(&self, i: usize) -> (r: (&K, &V))
        requires
            i < self.entry_seq().len(),
        ensures
            (r.0.key_view(), *r.1) == self.entry_seq()[i as int],
    {
        let e = &self.entries[i];
        (&e.0, &e.1)
    }

    fn index_of(&self, k: &K) -> (r: Option<usize>)
        ensures
            match r {
                Some(i) => i < self.entries@.len() && self.entries@[i as int].0.key_view() == k.key_view(),
                None => !self.view().contains_key(k.key_view()),
            },
    {
        let mut i: usize = 0;
        while i < self.entries.len()
            invariant
                i <= self.entries@.len(),
                forall|j: int| 0 <= j < i ==> self.entries@[j].0.key_view() != k.key_view(),
            decreases self.entries@.len() - i,
        {
            if self.entries[i].0.key_eq(k) {
                return Some(i);
            }
            i = i + 1;
        }
        None
    }

    /// The value at key `k`.
    pub fn get(&self, k: &K) -> (r: Option<&V>)
        ensures
            match r {
                Some(v) => self.view().contains_key(k.key_view()) && *v == self.view()[k.key_view()],
                None => !self.view().contains_key(k.key_view()),
            },
    {
        proof {
            use_type_invariant(self);
        }
        match self.index_of(k) {
            Some(i) => {
                proof {
                    self.lemma_entry(i as int);
                }
                Some(&self.entries[i].1)
            },
            None => None,
        }
    }

    /// Whether the map has key `k`.
    pub fn contains_key(&self, k: &K) -> (r: bool)
        ensures
            r == self.view().contains_key(k.key_view()),
    {
        self.get(k).is_some()
    }

    /// Sets the value at key `k` to `v`.
    pub fn insert(&mut self, k: K, v: V)
        ensures
            final(self).view() == old(self).view().insert(k.key_view(), v),
    {
        proof {
            use_type_invariant(&*self);
        }
        let ghost kv = k.key_view();
        let ghost old_view = self.view();
        match self.index_of(&k) {
            Some(i) => {
                let ghost old_entries = self.entries@;
                let mut entries = Vec::new();
                std::mem::swap(&mut entries, &mut self.entries);
                entries.set(i, (k, v));
                self.entries = entries;
                proof {
                    assert forall|j: int| 0 <= j < self.entries@.len() && j != i implies
                        self.entries@[j] == old_entries[j] by {}
                    assert(self.view() =~= old_view.insert(kv, v)) by {
                        assert forall|key: K::KeyView| #[trigger] self.view().contains_key(key)
                            == old_view.insert(kv, v).contains_key(key) by {
                            if self.has_key(key) {
                                let j = choose|j: int| 0 <= j < self.entries@.len() && #[trigger] self.entries@[j].0.key_view() == key;
                                if j != i {
                                    assert(old_entries[j].0.key_view() == key);
                                    assert(old_view.contains_key(key));
                                }
                            }
                            if old_view.contains_key(key) && key != kv {
                                let j = choose|j: int| 0 <= j < old_entries.len() && #[trigger] old_entries[j].0.key_view() == key;
                                assert(self.entries@[j].0.key_view() == key);
                            }
                            if key == kv {
                                assert(self.entries@[i as int].0.key_view() == key);
                            }
                        }
                        assert forall|key: K::KeyView| #[trigger] self.view().contains_key(key)
                            implies self.view()[key] == old_view.insert(kv, v)[key] by {
                            let j = choose|j: int| 0 <= j < self.entries@.len() && #[trigger] self.entries@[j].0.key_view() == key;
                            self.lemma_entry(j);
                            if key != kv {
                                let m = choose|m: int| 0 <= m < old_entries.len() && #[trigger] old_entries[m].0.key_view() == key;
                                assert(m == j);
                            }
                        }
                    }
                }
            },
            None => {
                let ghost old_entries = self.entries@;
                let mut entries = Vec::new();
                std::mem::swap(&mut entries, &mut self.entries);
                entries.push((k, v));
                self.entries = entries;
                proof {
                    let n = old_entries.len() as int;
                    assert(self.entries@.len() == n + 1);
                    assert(self.entries@[n].0.key_view() == kv);
                    assert forall|j: int| 0 <= j < n implies self.entries@[j] == old_entries[j] by {}
                    assert forall|j: int| 0 <= j < n implies old_entries[j].0.key_view() != kv by {
                        if old_entries[j].0.key_view() == kv {
                            assert(old_view.contains_key(kv));
                        }
                    }
                    assert(self.view() =~= old_view.insert(kv, v)) by {
                        assert forall|key: K::KeyView| #[trigger] self.view().contains_key(key)
                            == old_view.insert(kv, v).contains_key(key) by {
                            if self.has_key(key) {
                                let j = choose|j: int| 0 <= j < self.entries@.len() && #[trigger] self.entries@[j].0.key_view() == key;
                                if j != n {
                                    assert(old_entries[j].0.key_view() == key);
                                    assert(old_view.contains_key(key));
                                } else {
                                    assert(key == kv);
                                }
                            }
                            if old_view.contains_key(key) && key != kv {
                                let j = choose|j: int| 0 <= j < old_entries.len() && #[trigger] old_entries[j].0.key_view() == key;
                                assert(self.entries@[j].0.key_view() == key);
                            }
                            if key == kv {
                                assert(self.entries@[n].0.key_view() == key);
                            }
                        }
                        assert forall|key: K::KeyView| #[trigger] self.view().contains_key(key)
                            implies self.view()[key] == old_view.insert(kv, v)[key] by {
                            let j = choose|j: int| 0 <= j < self.entries@.len() && #[trigger] self.entries@[j].0.key_view() == key;
                            self.lemma_entry(j);
                            if key != kv {
                                let m = choose|m: int| 0 <= m < old_entries.len() && #[trigger] old_entries[m].0.key_view() == key;
                                assert(m == j);
                            }
                        }
                    }
                }
            },
        }
    }

    /// Removes the entry at key `k`, giving back its value.
    pub fn remove(&mut self, k: &K) -> (r: Option<V>)
        ensures
            final(self).view() == old(self).view().remove(k.key_view()),
            match r {
                Some(v) => old(self).view().contains_key(k.key_view()) && v == old(self).view()[k.key_view()],
                None => !old(self).view().contains_key(k.key_view()),
            },
    {
        proof {
            use_type_invariant(&*self);
        }
        let ghost kv = k.key_view();
        let ghost old_view = self.view();
        match self.index_of(k) {
            Some(i) => {
                proof {
                    self.lemma_entry(i as int);
                }
                let ghost old_entries = self.entries@;
                let mut entries = Vec::new();
                std::mem::swap(&mut entries, &mut self.entries);
                let e = entries.remove(i);
                self.entries = entries;
                proof {
                    assert forall|j: int| 0 <= j < self.entries@.len() implies
                        self.entries@[j] == old_entries[if j < i { j } else { j + 1 }] by {}
                    assert(self.view() =~= old_view.remove(kv)) by {
                        assert forall|key: K::KeyView| #[trigger] self.view().contains_key(key)
                            == old_view.remove(kv).contains_key(key) by {
                            if self.has_key(key) {
                                let j = choose|j: int| 0 <= j < self.entries@.len() && #[trigger] self.entries@[j].0.key_view() == key;
                                let oj = if j < i { j } else { j + 1 };
                                assert(old_entries[oj].0.key_view() == key);
                                assert(old_entries[i as int].0.key_view() == kv);
                            }
                            if old_view.contains_key(key) && key != kv {
                                let m = choose|m: int| 0 <= m < old_entries.len() && #[trigger] old_entries[m].0.key_view() == key;
                                let j = if m < i { m } else { m - 1 };
                                assert(self.entries@[j].0.key_view() == key);
                            }
                        }
                        assert forall|key: K::KeyView| #[trigger] self.view().contains_key(key)
                            implies self.view()[key] == old_view.remove(kv)[key] by {
                            let j = choose|j: int| 0 <= j < self.entries@.len() && #[trigger] self.entries@[j].0.key_view() == key;
                            self.lemma_entry(j);
                            let oj = if j < i { j } else { j + 1 };
                            let m = choose|m: int| 0 <= m < old_entries.len() && #[trigger] old_entries[m].0.key_view() == key;
                            assert(old_entries[oj].0.key_view() == key);
                            assert(m == oj);
                        }
                    }
                }
                Some(e.1)
            },
            None => {
                assert(old_view.remove(kv) =~= old_view);
                None
            },
        }
    }
}

} // verus!
