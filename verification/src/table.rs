//! An association table: at most one value per key, compared by view.

use vstd::prelude::*;
use crate::viewed::{seq_view, ViewEq};

verus! {

/// A table from keys to values with at most one entry per key view.
#[derive(Debug)]
pub struct Table<K, V> {
    entries: Vec<(K, V)>,
}

/// Whether position `i` of `e` holds key `k`.
pub open spec fn holds_key<K: View, V>(e: Seq<(K, V)>, i: int, k: K::V) -> bool {
    0 <= i < e.len() && e[i].0@ == k
}

/// A position of `e` holding key `k`, if there is one.
pub open spec fn index_of<K: View, V>(e: Seq<(K, V)>, k: K::V) -> int {
    choose|i: int| holds_key(e, i, k)
}

/// The keys of `e` are pairwise distinct.
pub open spec fn distinct_keys<K: View, V>(e: Seq<(K, V)>) -> bool {
    forall|i: int, j: int| 0 <= i < e.len() && 0 <= j < e.len() && i != j ==> e[i].0@ != e[j].0@
}

/// The map that `e` represents.
pub open spec fn entries_map<K: View, V: View>(e: Seq<(K, V)>) -> Map<K::V, V::V> {
    Map::new(|k: K::V| exists|i: int| holds_key(e, i, k), |k: K::V| e[index_of(e, k)].1@)
}

/// With distinct keys, the position holding a key is the one `index_of` picks.
pub proof fn lemma_index_of_unique<K: View, V>(e: Seq<(K, V)>, i: int, k: K::V)
    requires
        distinct_keys(e),
        holds_key(e, i, k),
    ensures
        index_of(e, k) == i,
{
    assert(holds_key(e, index_of(e, k), k));
}

impl<K: View, V: View> View for Table<K, V> {
    type V = Map<K::V, V::V>;

    closed spec fn view(&self) -> Map<K::V, V::V> {
        entries_map(self.entries@)
    }
}

impl<K: ViewEq, V: View> Table<K, V> {
    /// The table's entries are keyed distinctly.
    pub closed spec fn wf(&self) -> bool {
        distinct_keys(self.entries@)
    }

    /// The keys, in entry order.
    pub closed spec fn key_seq(&self) -> Seq<K::V> {
        self.entries@.map_values(|e: (K, V)| e.0@)
    }

    /// The values, in entry order.
    pub closed spec fn value_seq(&self) -> Seq<V::V> {
        self.entries@.map_values(|e: (K, V)| e.1@)
    }

    /// The entry order lists exactly the keys of the map, each once.
    pub proof fn lemma_key_seq(&self)
        requires
            self.wf(),
        ensures
            self.key_seq().len() == self@.dom().len(),
            self.key_seq().no_duplicates(),
            self.key_seq().to_set() == self@.dom(),
            forall|i: int|
                0 <= i < self.key_seq().len() ==> self@[#[trigger] self.key_seq()[i]]
                    == self.value_seq()[i],
            self.value_seq().len() == self.key_seq().len(),
    {
        let e = self.entries@;
        let ks = self.key_seq();
        assert(ks.to_set() =~= self@.dom()) by {
            assert forall|k: K::V| ks.to_set().contains(k) implies self@.dom().contains(k) by {
                let i = choose|i: int| 0 <= i < ks.len() && ks[i] == k;
                assert(holds_key(e, i, k));
            }
            assert forall|k: K::V| self@.dom().contains(k) implies ks.to_set().contains(k) by {
                let i = choose|i: int| holds_key(e, i, k);
                assert(ks[i] == k);
            }
        }
        assert forall|i: int| 0 <= i < ks.len() implies self@[#[trigger] ks[i]]
            == self.value_seq()[i] by {
            assert(holds_key(e, i, ks[i]));
            lemma_index_of_unique(e, i, ks[i]);
        }
        ks.unique_seq_to_set();
    }

    /// An empty table.
    pub fn new() -> (r: Table<K, V>)
        ensures
            r.wf(),
            r@ == Map::<K::V, V::V>::empty(),
    {
        let r = Table { entries: Vec::new() };
        assert(r@ =~= Map::<K::V, V::V>::empty());
        r
    }

    /// The number of entries.
    pub fn len(&self) -> (r: usize)
        requires
            self.wf(),
        ensures
            r == self@.dom().len(),
    {
        proof {
            self.lemma_key_seq();
        }
        self.entries.len()
    }

    /// The position of key `k`, if present.
    fn find(&self, k: &K) -> (r: Option<usize>)
        requires
            self.wf(),
        ensures
            r matches Some(i) ==> holds_key(self.entries@, i as int, k@) && index_of(
                self.entries@,
                k@,
            ) == i,
            r is None ==> !self@.contains_key(k@),
    {
        let mut i: usize = 0;
        while i < self.entries.len()
            invariant
                self.wf(),
                i <= self.entries.len(),
                forall|j: int| 0 <= j < i ==> self.entries@[j].0@ != k@,
            decreases self.entries.len() - i,
        {
            if self.entries[i].0.view_eq(k) {
                proof {
                    lemma_index_of_unique(self.entries@, i as int, k@);
                }
                return Some(i);
            }
            i = i + 1;
        }
        None
    }

    /// Whether key `k` is present.
    pub fn contains_key(&self, k: &K) -> (r: bool)
        requires
            self.wf(),
        ensures
            r == self@.contains_key(k@),
    {
        self.find(k).is_some()
    }

    /// A reference to the value stored under `k`, if any.
    pub fn get_ref(&self, k: &K) -> (r: Option<&V>)
        requires
            self.wf(),
        ensures
            r is Some == self@.contains_key(k@),
            r matches Some(v) ==> v@ == self@[k@],
    {
        match self.find(k) {
            Some(i) => Some(&self.entries[i].1),
            None => None,
        }
    }

    /// Stores `v` under `k`, replacing any previous value.
    pub fn insert(&mut self, k: K, v: V)
        requires
            old(self).wf(),
        ensures
            final(self).wf(),
            final(self)@ == old(self)@.insert(k@, v@),
    {
        let ghost old_e = self.entries@;
        let ghost kv = k@;
        let ghost vv = v@;
        match self.find(&k) {
            Some(i) => {
                self.entries.set(i, (k, v));
                proof {
                    let e = self.entries@;
                    assert(distinct_keys(e));
                    assert forall|key: K::V| #[trigger] entries_map(e).contains_key(key)
                        <==> old(self)@.insert(kv, vv).contains_key(key) by {
                        if key != kv {
                            if exists|j: int| holds_key(old_e, j, key) {
                                let j = choose|j: int| holds_key(old_e, j, key);
                                assert(holds_key(e, j, key));
                            }
                            if exists|j: int| holds_key(e, j, key) {
                                let j = choose|j: int| holds_key(e, j, key);
                                assert(holds_key(old_e, j, key));
                            }
                        } else {
                            assert(holds_key(e, i as int, key));
                        }
                    }
                    assert forall|key: K::V| #[trigger] entries_map(e).contains_key(key)
                        implies entries_map(e)[key] == old(self)@.insert(kv, vv)[key] by {
                        let j = choose|j: int| holds_key(e, j, key);
                        lemma_index_of_unique(e, j, key);
                        if key != kv {
                            assert(holds_key(old_e, j, key));
                            lemma_index_of_unique(old_e, j, key);
                        } else {
                            lemma_index_of_unique(e, i as int, key);
                        }
                    }
                    assert(entries_map(e) =~= old(self)@.insert(kv, vv));
                }
            },
            None => {
                self.entries.push((k, v));
                proof {
                    let e = self.entries@;
                    let n = old_e.len() as int;
                    assert(distinct_keys(e)) by {
                        assert forall|a: int, b: int|
                            0 <= a < e.len() && 0 <= b < e.len() && a != b implies e[a].0@
                            != e[b].0@ by {
                            if a == n {
                                assert(!holds_key(old_e, b, kv));
                            } else if b == n {
                                assert(!holds_key(old_e, a, kv));
                            }
                        }
                    }
                    assert forall|key: K::V| #[trigger] entries_map(e).contains_key(key)
                        <==> old(self)@.insert(kv, vv).contains_key(key) by {
                        if key != kv {
                            if exists|j: int| holds_key(old_e, j, key) {
                                let j = choose|j: int| holds_key(old_e, j, key);
                                assert(holds_key(e, j, key));
                            }
                            if exists|j: int| holds_key(e, j, key) {
                                let j = choose|j: int| holds_key(e, j, key);
                                assert(holds_key(old_e, j, key));
                            }
                        } else {
                            assert(holds_key(e, n, key));
                        }
                    }
                    assert forall|key: K::V| #[trigger] entries_map(e).contains_key(key)
                        implies entries_map(e)[key] == old(self)@.insert(kv, vv)[key] by {
                        let j = choose|j: int| holds_key(e, j, key);
                        lemma_index_of_unique(e, j, key);
                        if key != kv {
                            assert(holds_key(old_e, j, key));
                            lemma_index_of_unique(old_e, j, key);
                        } else {
                            if j < n {
                                assert(holds_key(old_e, j, key));
                            }
                            assert(j == n);
                        }
                    }
                    assert(entries_map(e) =~= old(self)@.insert(kv, vv));
                }
            },
        }
    }

    /// Removes the entry for `k`, returning its value if it was present.
    pub fn remove(&mut self, k: &K) -> (r: Option<V>)
        requires
            old(self).wf(),
        ensures
            final(self).wf(),
            final(self)@ == old(self)@.remove(k@),
            r is Some == old(self)@.contains_key(k@),
            r matches Some(v) ==> v@ == old(self)@[k@],
    {
        let ghost old_e = self.entries@;
        match self.find(k) {
            Some(i) => {
                let e = self.entries.remove(i);
                proof {
                    let ne = self.entries@;
                    let kv = k@;
                    assert(forall|j: int| 0 <= j < ne.len() ==> ne[j] == (if j < i {
                        old_e[j]
                    } else {
                        old_e[j + 1]
                    }));
                    assert(distinct_keys(ne)) by {
                        assert forall|a: int, b: int|
                            0 <= a < ne.len() && 0 <= b < ne.len() && a != b implies ne[a].0@
                            != ne[b].0@ by {
                            let oa = if a < i {
                                a
                            } else {
                                a + 1
                            };
                            let ob = if b < i {
                                b
                            } else {
                                b + 1
                            };
                            assert(ne[a] == old_e[oa]);
                            assert(ne[b] == old_e[ob]);
                        }
                    }
                    assert forall|key: K::V| #[trigger] entries_map(ne).contains_key(key)
                        <==> old(self)@.remove(kv).contains_key(key) by {
                        if exists|j: int| holds_key(ne, j, key) {
                            let j = choose|j: int| holds_key(ne, j, key);
                            let oj = if j < i {
                                j
                            } else {
                                j + 1
                            };
                            assert(holds_key(old_e, oj, key));
                            assert(oj != i);
                        }
                        if key != kv && exists|j: int| holds_key(old_e, j, key) {
                            let j = choose|j: int| holds_key(old_e, j, key);
                            assert(j != i);
                            let nj = if j < i {
                                j
                            } else {
                                j - 1
                            };
                            assert(holds_key(ne, nj, key));
                        }
                    }
                    assert forall|key: K::V| #[trigger] entries_map(ne).contains_key(key)
                        implies entries_map(ne)[key] == old(self)@.remove(kv)[key] by {
                        let j = choose|j: int| holds_key(ne, j, key);
                        lemma_index_of_unique(ne, j, key);
                        let oj = if j < i {
                            j
                        } else {
                            j + 1
                        };
                        assert(holds_key(old_e, oj, key));
                        lemma_index_of_unique(old_e, oj, key);
                    }
                    assert(entries_map(ne) =~= old(self)@.remove(kv));
                }
                Some(e.1)
            },
            None => {
                assert(old(self)@.remove(k@) =~= old(self)@);
                None
            },
        }
    }

    /// Removes every entry.
    pub fn clear(&mut self)
        requires
            old(self).wf(),
        ensures
            final(self).wf(),
            final(self)@ == Map::<K::V, V::V>::empty(),
    {
        self.entries = Vec::new();
        assert(self@ =~= Map::<K::V, V::V>::empty());
    }

    /// Copies of all keys, in entry order.
    pub fn keys(&self) -> (r: Vec<K>)
        requires
            self.wf(),
        ensures
            seq_view(r@) == self.key_seq(),
    {
        let mut r: Vec<K> = Vec::new();
        let mut i: usize = 0;
        while i < self.entries.len()
            invariant
                i <= self.entries.len(),
                r@.len() == i,
                forall|j: int| 0 <= j < i ==> r@[j]@ == self.entries@[j].0@,
            decreases self.entries.len() - i,
        {
            r.push(self.entries[i].0.view_clone());
            i = i + 1;
        }
        assert(seq_view(r@) =~= self.key_seq());
        r
    }
}

impl<K: ViewEq, V: ViewEq> Table<K, V> {
    /// A copy of the value stored under `k`, if any.
    pub fn get(&self, k: &K) -> (r: Option<V>)
        requires
            self.wf(),
        ensures
            r is Some == self@.contains_key(k@),
            r matches Some(v) ==> v@ == self@[k@],
    {
        match self.find(k) {
            Some(i) => Some(self.entries[i].1.view_clone()),
            None => None,
        }
    }

    /// Copies of all values, in entry order.
    pub fn values(&self) -> (r: Vec<V>)
        requires
            self.wf(),
        ensures
            seq_view(r@) == self.value_seq(),
    {
        let mut r: Vec<V> = Vec::new();
        let mut i: usize = 0;
        while i < self.entries.len()
            invariant
                i <= self.entries.len(),
                r@.len() == i,
                forall|j: int| 0 <= j < i ==> r@[j]@ == self.entries@[j].1@,
            decreases self.entries.len() - i,
        {
            r.push(self.entries[i].1.view_clone());
            i = i + 1;
        }
        assert(seq_view(r@) =~= self.value_seq());
        r
    }


    /// A copy of the table.
    pub fn copy(&self) -> (r: Table<K, V>)
        requires
            self.wf(),
        ensures
            r.wf(),
            r@ == self@,
    {
        let mut entries: Vec<(K, V)> = Vec::new();
        let mut i: usize = 0;
        while i < self.entries.len()
            invariant
                i <= self.entries.len(),
                entries@.len() == i,
                forall|j: int|
                    0 <= j < i ==> #[trigger] entries@[j].0@ == self.entries@[j].0@ && entries@[j].1@
                        == self.entries@[j].1@,
            decreases self.entries.len() - i,
        {
            entries.push((self.entries[i].0.view_clone(), self.entries[i].1.view_clone()));
            i = i + 1;
        }
        let r = Table { entries };
        proof {
            let a = self.entries@;
            let b = r.entries@;
            assert(distinct_keys(b)) by {
                assert forall|x: int, y: int| 0 <= x < b.len() && 0 <= y < b.len() && x != y implies b[x].0@ != b[y].0@ by {
                    assert(b[x].0@ == a[x].0@);
                    assert(b[y].0@ == a[y].0@);
                }
            }
            assert forall|k: K::V| #[trigger] r@.contains_key(k) == self@.contains_key(k) by {
                if r@.contains_key(k) {
                    let x = choose|x: int| holds_key(b, x, k);
                    assert(holds_key(a, x, k));
                }
                if self@.contains_key(k) {
                    let x = choose|x: int| holds_key(a, x, k);
                    assert(holds_key(b, x, k));
                }
            }
            assert forall|k: K::V| r@.contains_key(k) implies r@[k] == self@[k] by {
                let x = choose|x: int| holds_key(b, x, k);
                assert(holds_key(a, x, k));
                lemma_index_of_unique(a, x, k);
                lemma_index_of_unique(b, x, k);
            }
            assert(r@ =~= self@);
        }
        r
    }
}

} // verus!