//! A small association table with unique keys, used for the registrations.

use vstd::prelude::*;

verus! {

/// Keys that can be compared in executable code by their view.
pub trait KeyEq: View + Sized {
    fn key_eq(&self, other: &Self) -> (r: bool)
        ensures
            r == (self@ == other@),
    ;
}

impl KeyEq for u64 {
    fn key_eq(&self, other: &u64) -> (r: bool) {
        *self == *other
    }
}

impl KeyEq for i32 {
    fn key_eq(&self, other: &i32) -> (r: bool) {
        *self == *other
    }
}

impl KeyEq for String {
    fn key_eq(&self, other: &String) -> (r: bool) {
        self.eq(other)
    }
}

/// A table that maps each key to at most one value.
pub struct Table<K, V> {
    entries: Vec<(K, V)>,
}

impl<K: KeyEq, V> Table<K, V> {
    /// The keys of the entries, in storage order.
    pub closed spec fn keys(&self) -> Seq<K::V> {
        self.entries@.map_values(|e: (K, V)| e.0@)
    }

    spec fn index_of(&self, k: K::V) -> int {
        choose|i: int| 0 <= i < self.keys().len() && self.keys()[i] == k
    }

    /// The value stored for each key.
    pub closed spec fn view(&self) -> Map<K::V, V> {
        Map::new(|k: K::V| self.keys().contains(k), |k: K::V| self.entries@[self.index_of(k)].1)
    }

    pub closed spec fn well_formed(&self) -> bool {
        self.keys().no_duplicates()
    }

    proof fn lemma_entry(&self, i: int)
        requires
            self.well_formed(),
            0 <= i < self.entries@.len(),
        ensures
            self@.contains_key(self.entries@[i].0@),
            self@[self.entries@[i].0@] == self.entries@[i].1,
    {
        let k = self.keys()[i];
        assert(self.keys().contains(k));
        let j = self.index_of(k);
        assert(self.keys()[j] == k);
    }

    pub fn new() -> (r: Self)
        ensures
            r.well_formed(),
            r@ == Map::<K::V, V>::empty(),
    {
        let r = Table { entries: Vec::new() };
        assert(r.keys() =~= Seq::<K::V>::empty());
        assert(r@ =~= Map::<K::V, V>::empty());
        r
    }

    fn find(&self, key: &K) -> (r: Option<usize>)
        ensures
            match r {
                Some(i) => i < self.entries@.len() && self.keys()[i as int] == key@,
                None => !self.keys().contains(key@),
            },
    {
        let mut i: usize = 0;
        while i < self.entries.len()
            invariant
                i <= self.entries@.len(),
                forall|j: int| 0 <= j < i ==> self.keys()[j] != key@,
            decreases self.entries@.len() - i,
        {
            if self.entries[i].0.key_eq(key) {
                return Some(i);
            }
            i = i + 1;
        }
        None
    }

    /// The value stored for `key`, if any.
    pub fn get(&self, key: &K) -> (r: Option<&V>)
        requires
            self.well_formed(),
        ensures
            r.is_some() == self@.contains_key(key@),
            r matches Some(v) ==> *v == self@[key@],
    {
        match self.find(key) {
            Some(i) => {
                proof {
                    self.lemma_entry(i as int);
                }
                Some(&self.entries[i].1)
            },
            None => None,
        }
    }

    /// Removes the entry for `key` and returns its value, if there was one.
    pub fn remove(&mut self, key: &K) -> (r: Option<V>)
        requires
            old(self).well_formed(),
        ensures
            final(self).well_formed(),
            final(self)@ == old(self)@.remove(key@),
            r == (if old(self)@.contains_key(key@) {
                Some(old(self)@[key@])
            } else {
                None::<V>
            }),
    {
        match self.find(key) {
            Some(i) => {
                let ghost t0 = *self;
                proof {
                    t0.lemma_entry(i as int);
                }
                let e = self.entries.remove(i);
                assert(self.keys() =~= t0.keys().remove(i as int));
                proof {
                    assert forall|k: K::V| #[trigger] self@.contains_key(k) <==> t0@.remove(key@).contains_key(k) by {
                        if self.keys().contains(k) {
                            let j = choose|j: int| 0 <= j < self.keys().len() && self.keys()[j] == k;
                            if j < i {
                                assert(t0.keys()[j] == k);
                            } else {
                                assert(t0.keys()[j + 1] == k);
                            }
                        }
                        if k != key@ && t0.keys().contains(k) {
                            let j = choose|j: int| 0 <= j < t0.keys().len() && t0.keys()[j] == k;
                            if j < i {
                                assert(self.keys()[j] == k);
                            } else {
                                assert(self.keys()[j - 1] == k);
                            }
                        }
                    }
                    assert forall|k: K::V| #[trigger] self@.contains_key(k) implies self@[k] == t0@[k] by {
                        let j = choose|j: int| 0 <= j < self.keys().len() && self.keys()[j] == k;
                        self.lemma_entry(j);
                        if j < i {
                            t0.lemma_entry(j);
                        } else {
                            t0.lemma_entry(j + 1);
                        }
                    }
                    assert(self@ =~= t0@.remove(key@));
                }
                Some(e.1)
            },
            None => {
                assert(self@ =~= old(self)@.remove(key@));
                None
            },
        }
    }

    /// Stores `value` for `key`, replacing any earlier value for the same key.
    pub fn insert(&mut self, key: K, value: V)
        requires
            old(self).well_formed(),
        ensures
            final(self).well_formed(),
            final(self)@ == old(self)@.insert(key@, value),
    {
        let _ = self.remove(&key);
        let ghost t1 = *self;
        let ghost mid = self.keys();
        let ghost k = key@;
        let ghost val = value;
        self.entries.push((key, value));
        assert(self.keys() =~= mid.push(k));
        assert(!t1@.contains_key(k));
        assert(t1@.dom().contains(k) == mid.contains(k));
        assert(!mid.contains(k));
        proof {
            assert forall|a: int, b: int| 0 <= a < b < self.keys().len() implies self.keys()[a] != self.keys()[b] by {
                if b == mid.len() {
                    assert(mid[a] != k);
                }
            }
            assert forall|x: K::V| #[trigger] self@.contains_key(x) <==> old(self)@.insert(k, val).contains_key(x) by {
                if x != k {
                    assert(t1@.dom().contains(x) == mid.contains(x));
                    if mid.contains(x) {
                        let j = choose|j: int| 0 <= j < mid.len() && mid[j] == x;
                        assert(self.keys()[j] == x);
                    }
                    if self.keys().contains(x) {
                        let j = choose|j: int| 0 <= j < self.keys().len() && self.keys()[j] == x;
                        assert(j < mid.len());
                        assert(mid[j] == x);
                    }
                } else {
                    assert(self.keys()[mid.len() as int] == k);
                }
            }
            assert forall|x: K::V| #[trigger] self@.contains_key(x) implies self@[x] == old(self)@.insert(k, val)[x] by {
                let j = choose|j: int| 0 <= j < self.keys().len() && self.keys()[j] == x;
                self.lemma_entry(j);
                if j < mid.len() {
                    assert(self.entries@[j] == t1.entries@[j]);
                    t1.lemma_entry(j);
                }
            }
        }
        assert(self@ =~= old(self)@.insert(k, val));
    }
}

} // verus!
