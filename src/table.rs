//! A store of records addressed by unique keys, viewed as a finite map.

use vstd::prelude::*;

verus! {

/// Keys whose equality can be decided at run time.
pub trait TableKey: Sized + Copy {
    fn matches(&self, other: &Self) -> (r: bool)
        ensures
            r == (*self == *other),
    ;
}

/// Records keyed by `K`; no two entries share a key.
pub struct Table<K: TableKey, V> {
    entries: Vec<(K, V)>,
}

impl<K: TableKey, V> View for Table<K, V> {
    type V = Map<K, V>;

    closed spec fn view(&self) -> Map<K, V> {
        Map::new(
            |k: K| exists|i: int| 0 <= i < self.entries@.len() && self.entries@[i].0 == k,
            |k: K|
                self.entries@[choose|i: int|
                    0 <= i < self.entries@.len() && self.entries@[i].0 == k].1,
        )
    }
}

impl<K: TableKey, V> Table<K, V> {
    /// No two entries share a key.
    pub closed spec fn wf(&self) -> bool {
        forall|i: int, j: int|
            0 <= i < self.entries@.len() && 0 <= j < self.entries@.len() && i != j
                ==> self.entries@[i].0 != self.entries@[j].0
    }

    proof fn lemma_entry(&self, i: int)
        requires
            self.wf(),
            0 <= i < self.entries@.len(),
        ensures
            self@.contains_key(self.entries@[i].0),
            self@[self.entries@[i].0] == self.entries@[i].1,
    {
        let k = self.entries@[i].0;
        assert(self.entries@[i].0 == k);
        let j = choose|j: int| 0 <= j < self.entries@.len() && self.entries@[j].0 == k;
        assert(j == i);
    }

    pub fn new() -> (r: Table<K, V>)
        ensures
            r.wf(),
            r@ == Map::<K, V>::empty(),
    {
        let r = Table { entries: Vec::new() };
        assert(r@ =~= Map::<K, V>::empty());
        r
    }

    fn position(&self, k: &K) -> (r: Option<usize>)
        ensures
            match r {
                Some(i) => i < self.entries@.len() && self.entries@[i as int].0 == *k,
                None => !self@.contains_key(*k),
            },
    {
        let mut i: usize = 0;
        while i < self.entries.len()
            invariant
                0 <= i <= self.entries@.len(),
                forall|j: int| 0 <= j < i ==> self.entries@[j].0 != *k,
            decreases self.entries@.len() - i,
        {
            if self.entries[i].0.matches(k) {
                return Some(i);
            }
            i = i + 1;
        }
        None
    }

    pub fn contains(&self, k: &K) -> (r: bool)
        requires
            self.wf(),
        ensures
            r == self@.contains_key(*k),
    {
        match self.position(k) {
            Some(i) => {
                proof {
                    self.lemma_entry(i as int);
                }
                true
            },
            None => false,
        }
    }

    pub fn get(&self, k: &K) -> (r: Option<&V>)
        requires
            self.wf(),
        ensures
            r.is_some() == self@.contains_key(*k),
            r.is_some() ==> *r.unwrap() == self@[*k],
    {
        match self.position(k) {
            Some(i) => {
                proof {
                    self.lemma_entry(i as int);
                }
                Some(&self.entries[i].1)
            },
            None => None,
        }
    }

    /// Adds a record under a key that is not yet taken.
    pub fn insert_new(&mut self, k: K, v: V)
        requires
            old(self).wf(),
            !old(self)@.contains_key(k),
        ensures
            final(self).wf(),
            final(self)@ == old(self)@.insert(k, v),
    {
        let ghost before = *self;
        self.entries.push((k, v));
        proof {
            let n = before.entries@.len();
            assert(self.entries@[n as int].0 == k);
            assert(self.wf());
            self.lemma_entry(n as int);
            assert forall|q: K| #[trigger] self@.contains_key(q) && q != k implies before@.contains_key(q)
                && self@[q] == before@[q] by {
                let j = choose|j: int| 0 <= j < self.entries@.len() && self.entries@[j].0 == q;
                assert(j < n);
                assert(before.entries@[j].0 == q);
                before.lemma_entry(j);
            }
            assert forall|q: K| #[trigger] before@.contains_key(q) implies self@.contains_key(q) by {
                let j = choose|j: int| 0 <= j < before.entries@.len() && before.entries@[j].0 == q;
                assert(self.entries@[j].0 == q);
            }
            assert(self@ =~= before@.insert(k, v));
        }
    }

    /// Takes out the record under `k`, if there is one.
    pub fn remove(&mut self, k: &K) -> (r: Option<V>)
        requires
            old(self).wf(),
        ensures
            final(self).wf(),
            r == (if old(self)@.contains_key(*k) { Some(old(self)@[*k]) } else { None::<V> }),
            final(self)@ == old(self)@.remove(*k),
    {
        match self.position(k) {
            None => {
                assert(self@ =~= self@.remove(*k));
                None
            },
            Some(i) => {
                let ghost before = *self;
                proof {
                    before.lemma_entry(i as int);
                }
                let (_, v) = self.entries.remove(i);
                proof {
                    assert(self.wf()) by {
                        assert forall|a: int, b: int|
                            0 <= a < self.entries@.len() && 0 <= b < self.entries@.len() && a != b
                                implies self.entries@[a].0 != self.entries@[b].0 by {
                            let a2 = if a < i { a } else { a + 1 };
                            let b2 = if b < i { b } else { b + 1 };
                            assert(self.entries@[a] == before.entries@[a2]);
                            assert(self.entries@[b] == before.entries@[b2]);
                        }
                    }
                    assert forall|q: K| #[trigger] self@.contains_key(q) implies q != *k
                        && before@.contains_key(q) && self@[q] == before@[q] by {
                        let j = choose|j: int| 0 <= j < self.entries@.len() && self.entries@[j].0 == q;
                        let j2 = if j < i { j } else { j + 1 };
                        assert(self.entries@[j] == before.entries@[j2]);
                        before.lemma_entry(j2);
                        self.lemma_entry(j);
                    }
                    assert forall|q: K| #[trigger] before@.contains_key(q) && q != *k implies self@.contains_key(q) by {
                        let j = choose|j: int| 0 <= j < before.entries@.len() && before.entries@[j].0 == q;
                        assert(j != i);
                        let j2 = if j < i { j } else { j - 1 };
                        assert(self.entries@[j2] == before.entries@[j]);
                    }
                    assert(self@ =~= before@.remove(*k));
                }
                Some(v)
            },
        }
    }

    /// Stores `v` under `k`, replacing any record already there.
    pub fn set(&mut self, k: K, v: V)
        requires
            old(self).wf(),
        ensures
            final(self).wf(),
            final(self)@ == old(self)@.insert(k, v),
    {
        let _ = self.remove(&k);
        self.insert_new(k, v);
        proof {
            assert(self@ =~= old(self)@.insert(k, v));
        }
    }
}

impl TableKey for u64 {
    fn matches(&self, other: &u64) -> (r: bool) {
        *self == *other
    }
}

} // verus!
