//! A table keyed by strings, with at most one entry per key. It backs the
//! session map, the connection map, the virtual-host map and the TCP
//! listener map.
use vstd::prelude::*;
use crate::text::str_eq;

verus! {

/// Entries keyed by string; the view maps each key to its value.
pub struct KeyedTable<T> {
    entries: Vec<(String, T)>,
}

impl<T> KeyedTable<T> {
    /// No key is stored twice.
    pub closed spec fn wf(&self) -> bool {
        forall|i: int, j: int|
            0 <= i < self.entries@.len() && 0 <= j < self.entries@.len() && i != j
                ==> (#[trigger] self.entries@[i]).0@ != (#[trigger] self.entries@[j]).0@
    }

    spec fn has_key_at(&self, k: Seq<char>, i: int) -> bool {
        0 <= i < self.entries@.len() && self.entries@[i].0@ == k
    }

    spec fn index_of(&self, k: Seq<char>) -> int {
        choose|i: int| self.has_key_at(k, i)
    }

    /// The table as a map from keys to values.
    pub closed spec fn view(&self) -> Map<Seq<char>, T> {
        Map::new(
            |k: Seq<char>| exists|i: int| self.has_key_at(k, i),
            |k: Seq<char>| self.entries@[self.index_of(k)].1,
        )
    }

    proof fn lemma_at(&self, i: int)
        requires
            self.wf(),
            0 <= i < self.entries@.len(),
        ensures
            self.view().contains_key(self.entries@[i].0@),
            self.view()[self.entries@[i].0@] == self.entries@[i].1,
    {
        let k = self.entries@[i].0@;
        assert(self.has_key_at(k, i));
        let j = self.index_of(k);
        assert(self.has_key_at(k, j));
        assert(i == j);
    }

    /// An empty table.
    pub fn new() -> (r: Self)
        ensures
            r.wf(),
            r.view() == Map::<Seq<char>, T>::empty(),
    {
        let r = KeyedTable { entries: Vec::new() };
        assert(r.view() =~= Map::<Seq<char>, T>::empty());
        r
    }

    /// Number of entries.
    pub fn len(&self) -> (r: usize)
        requires
            self.wf(),
        ensures
            r as nat == self.view().dom().len(),
    {
        proof { self.lemma_len(); }
        self.entries.len()
    }

    proof fn lemma_len(&self)
        requires
            self.wf(),
        ensures
            self.view().dom().finite(),
            self.view().dom().len() == self.entries@.len(),
    {
        let keys = self.entries@.map_values(|e: (String, T)| e.0@);
        assert(keys.no_duplicates());
        assert(self.view().dom() =~= keys.to_set()) by {
            assert forall|k: Seq<char>| self.view().dom().contains(k) <==> keys.contains(k) by {
                if self.view().dom().contains(k) {
                    let i = choose|i: int| self.has_key_at(k, i);
                    assert(keys[i] == k);
                }
                if keys.contains(k) {
                    let i = choose|i: int| 0 <= i < keys.len() && keys[i] == k;
                    assert(self.has_key_at(k, i));
                }
            }
        }
        keys.unique_seq_to_set();
    }

    fn find(&self, key: &str) -> (r: Option<usize>)
        requires
            self.wf(),
        ensures
            match r {
                Some(i) => i < self.entries@.len() && self.entries@[i as int].0@ == key@,
                None => !self.view().contains_key(key@),
            },
    {
        let mut i: usize = 0;
        while i < self.entries.len()
            invariant
                i <= self.entries@.len(),
                forall|j: int| 0 <= j < i ==> self.entries@[j].0@ != key@,
            decreases self.entries@.len() - i,
        {
            if str_eq(self.entries[i].0.as_str(), key) {
                return Some(i);
            }
            i = i + 1;
        }
        None
    }

    /// Whether `key` has an entry.
    pub fn contains_key(&self, key: &str) -> (r: bool)
        requires
            self.wf(),
        ensures
            r == self.view().contains_key(key@),
    {
        match self.find(key) {
            Some(i) => {
                proof { self.lemma_at(i as int); }
                true
            },
            None => false,
        }
    }

    /// The value stored under `key`.
    pub fn get(&self, key: &str) -> (r: Option<&T>)
        requires
            self.wf(),
        ensures
            match r {
                Some(v) => self.view().contains_key(key@) && self.view()[key@] == *v,
                None => !self.view().contains_key(key@),
            },
    {
        match self.find(key) {
            Some(i) => {
                proof { self.lemma_at(i as int); }
                Some(&self.entries[i].1)
            },
            None => None,
        }
    }

    /// Removes the entry of `key` and returns its value.
    pub fn remove(&mut self, key: &str) -> (r: Option<T>)
        requires
            old(self).wf(),
        ensures
            final(self).wf(),
            final(self).view() == old(self).view().remove(key@),
            match r {
                Some(v) => old(self).view().contains_key(key@) && old(self).view()[key@] == v,
                None => !old(self).view().contains_key(key@),
            },
    {
        match self.find(key) {
            None => None,
            Some(i) => {
                proof { self.lemma_at(i as int); }
                let ghost before = *self;
                let entry = self.entries.remove(i);
                assert(self.wf()) by {
                    assert forall|a: int, b: int|
                        0 <= a < self.entries@.len() && 0 <= b < self.entries@.len() && a != b
                            implies (#[trigger] self.entries@[a]).0@ != (#[trigger] self.entries@[b]).0@ by {
                        let a2 = if a < i { a } else { a + 1 };
                        let b2 = if b < i { b } else { b + 1 };
                        assert(self.entries@[a] == before.entries@[a2]);
                        assert(self.entries@[b] == before.entries@[b2]);
                    }
                }
                assert(self.view() =~= before.view().remove(key@)) by {
                    assert forall|k: Seq<char>| #[trigger] self.view().contains_key(k) <==> before.view().remove(key@).contains_key(k) by {
                        if self.view().contains_key(k) {
                            let j = choose|j: int| self.has_key_at(k, j);
                            let j2 = if j < i { j } else { j + 1 };
                            assert(before.has_key_at(k, j2));
                            assert(j2 != i);
                        }
                        if before.view().remove(key@).contains_key(k) {
                            let j = choose|j: int| before.has_key_at(k, j);
                            assert(j != i);
                            let j1 = if j < i { j } else { j - 1 };
                            assert(self.has_key_at(k, j1));
                        }
                    }
                    assert forall|k: Seq<char>| #[trigger] self.view().contains_key(k) implies self.view()[k] == before.view().remove(key@)[k] by {
                        let j = choose|j: int| self.has_key_at(k, j);
                        self.lemma_at(j);
                        let j2 = if j < i { j } else { j + 1 };
                        assert(before.entries@[j2] == self.entries@[j]);
                        before.lemma_at(j2);
                    }
                }
                Some(entry.1)
            },
        }
    }

    /// Stores `value` under `key`, replacing any earlier value.
    pub fn insert(&mut self, key: String, value: T)
        requires
            old(self).wf(),
        ensures
            final(self).wf(),
            final(self).view() == old(self).view().insert(key@, value),
    {
        let _ = self.remove(key.as_str());
        let ghost mid = *self;
        let ghost k = key@;
        self.entries.push((key, value));
        assert(self.wf()) by {
            assert forall|a: int, b: int|
                0 <= a < self.entries@.len() && 0 <= b < self.entries@.len() && a != b
                    implies (#[trigger] self.entries@[a]).0@ != (#[trigger] self.entries@[b]).0@ by {
                if a < mid.entries@.len() && b < mid.entries@.len() {
                    assert(self.entries@[a] == mid.entries@[a]);
                    assert(self.entries@[b] == mid.entries@[b]);
                } else if a < mid.entries@.len() {
                    assert(self.entries@[a] == mid.entries@[a]);
                    if mid.entries@[a].0@ == k {
                        mid.lemma_at(a);
                    }
                } else if b < mid.entries@.len() {
                    assert(self.entries@[b] == mid.entries@[b]);
                    if mid.entries@[b].0@ == k {
                        mid.lemma_at(b);
                    }
                }
            }
        }
        let ghost n = mid.entries@.len() as int;
        assert(self.view() =~= mid.view().insert(k, value)) by {
            assert forall|x: Seq<char>| #[trigger] self.view().contains_key(x) <==> mid.view().insert(k, value).contains_key(x) by {
                if self.view().contains_key(x) {
                    let j = choose|j: int| self.has_key_at(x, j);
                    if j < n {
                        assert(mid.has_key_at(x, j));
                    }
                }
                if mid.view().contains_key(x) {
                    let j = choose|j: int| mid.has_key_at(x, j);
                    assert(self.has_key_at(x, j));
                }
                if x == k {
                    assert(self.has_key_at(x, n));
                }
            }
            assert forall|x: Seq<char>| #[trigger] self.view().contains_key(x) implies self.view()[x] == mid.view().insert(k, value)[x] by {
                let j = choose|j: int| self.has_key_at(x, j);
                self.lemma_at(j);
                if j < n {
                    assert(self.entries@[j] == mid.entries@[j]);
                    mid.lemma_at(j);
                }
            }
        }
    }
}

} // verus!
