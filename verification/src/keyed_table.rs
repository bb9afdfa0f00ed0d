//! A small table from keys to values with at most one entry per key.
//!
//! The browser registry keeps its RTC sessions here, the protocol transport
//! keeps its pending preparations here, and the native node keeps its accept
//! queues (keyed by ALPN bytes) here.

use vstd::prelude::*;

verus! {

/// Keys that can be compared by their view.
pub trait TableKey: View + Sized {
    fn same_key(&self, other: &Self) -> (r: bool)
        ensures
            r == (self@ == other@);

    fn copy_key(&self) -> (r: Self)
        ensures
            r@ == self@;
}

impl TableKey for String {
    fn same_key(&self, other: &Self) -> (r: bool) {
        *self == *other
    }

    fn copy_key(&self) -> (r: Self) {
        self.clone()
    }
}

impl TableKey for Vec<u8> {
    fn same_key(&self, other: &Self) -> (r: bool) {
        if self.len() != other.len() {
            return false;
        }
        let mut i: usize = 0;
        while i < self.len()
            invariant
                self.len() == other.len(),
                i <= self.len(),
                forall|j: int| 0 <= j < i ==> self@[j] == other@[j],
            decreases self.len() - i,
        {
            if self[i] != other[i] {
                return false;
            }
            i = i + 1;
        }
        proof {
            assert(self@ =~= other@);
        }
        true
    }

    fn copy_key(&self) -> (r: Self) {
        let mut out: Vec<u8> = Vec::new();
        let mut i: usize = 0;
        while i < self.len()
            invariant
                i <= self.len(),
                out@ == self@.take(i as int),
            decreases self.len() - i,
        {
            out.push(self[i]);
            i = i + 1;
            proof { assert(out@ =~= self@.take(i as int)); }
        }
        proof { assert(out@ =~= self@); }
        out
    }
}

impl TableKey for u64 {
    fn same_key(&self, other: &Self) -> (r: bool) {
        *self == *other
    }

    fn copy_key(&self) -> (r: Self) {
        *self
    }
}

pub struct KeyedTable<K, V> {
    entries: Vec<(K, V)>,
}

impl<K: TableKey, V> KeyedTable<K, V> {
    /// The entries in insertion order, keys taken by their view.
    pub closed spec fn entries(&self) -> Seq<(K::V, V)> {
        self.entries@.map_values(|e: (K, V)| (e.0@, e.1))
    }

    /// No key occurs twice.
    pub closed spec fn wf(&self) -> bool {
        forall|i: int, j: int|
            0 <= i < self.entries@.len() && 0 <= j < self.entries@.len() && i != j
                ==> self.entries@[i].0@ != self.entries@[j].0@
    }

    /// The table as a map.
    pub closed spec fn view(&self) -> Map<K::V, V> {
        Map::new(
            |k: K::V| exists|i: int| 0 <= i < self.entries@.len() && self.entries@[i].0@ == k,
            |k: K::V|
                self.entries@[choose|i: int|
                    0 <= i < self.entries@.len() && self.entries@[i].0@ == k].1,
        )
    }

    proof fn lemma_view_at(&self, i: int)
        requires
            self.wf(),
            0 <= i < self.entries@.len(),
        ensures
            self.view().contains_key(self.entries@[i].0@),
            self.view()[self.entries@[i].0@] == self.entries@[i].1,
    {
        let k = self.entries@[i].0@;
        assert(exists|j: int| 0 <= j < self.entries@.len() && self.entries@[j].0@ == k);
        let c = choose|j: int| 0 <= j < self.entries@.len() && self.entries@[j].0@ == k;
        assert(c == i);
    }

    pub fn new() -> (t: Self)
        ensures
            t.wf(),
            t.view() == Map::<K::V, V>::empty(),
            t.entries() == Seq::<(K::V, V)>::empty(),
    {
        let t = KeyedTable { entries: Vec::new() };
        proof {
            assert(t.view() =~= Map::<K::V, V>::empty());
            assert(t.entries() =~= Seq::<(K::V, V)>::empty());
        }
        t
    }

    pub fn len(&self) -> (n: usize)
        requires
            self.wf(),
        ensures
            n == self.view().len(),
            n == self.entries().len(),
    {
        proof { self.lemma_len(); }
        self.entries.len()
    }

    pub proof fn lemma_len(&self)
        requires
            self.wf(),
        ensures
            self.view().len() == self.entries().len(),
            self.view().dom().finite(),
    {
        let keys = self.entries@.map_values(|e: (K, V)| e.0@);
        assert forall|k: K::V| self.view().dom().contains(k) <==> keys.to_set().contains(k) by {
            if self.view().dom().contains(k) {
                let c = choose|j: int| 0 <= j < self.entries@.len() && self.entries@[j].0@ == k;
                assert(keys[c] == k);
            }
            if keys.to_set().contains(k) {
                assert(keys.contains(k));
                let c = choose|j: int| 0 <= j < keys.len() && keys[j] == k;
                assert(self.entries@[c].0@ == k);
            }
        }
        assert(self.view().dom() =~= keys.to_set());
        assert(keys.no_duplicates()) by {
            assert forall|i: int, j: int| 0 <= i < keys.len() && 0 <= j < keys.len() && i != j
                implies keys[i] != keys[j] by {}
        }
        keys.unique_seq_to_set();
    }

    /// Position of the entry for `key`, if any.
    fn find(&self, key: &K) -> (r: Option<usize>)
        requires
            self.wf(),
        ensures
            match r {
                Some(i) => i < self.entries@.len() && self.entries@[i as int].0@ == key@,
                None => forall|i: int| 0 <= i < self.entries@.len() ==> self.entries@[i].0@ != key@,
            },
            r is None <==> !self.view().contains_key(key@),
    {
        let mut i: usize = 0;
        while i < self.entries.len()
            invariant
                self.wf(),
                i <= self.entries@.len(),
                forall|j: int| 0 <= j < i ==> self.entries@[j].0@ != key@,
            decreases self.entries@.len() - i,
        {
            if self.entries[i].0.same_key(key) {
                proof { self.lemma_view_at(i as int); }
                return Some(i);
            }
            i = i + 1;
        }
        None
    }

    pub fn contains_key(&self, key: &K) -> (b: bool)
        requires
            self.wf(),
        ensures
            b == self.view().contains_key(key@),
    {
        self.find(key).is_some()
    }

    pub fn get(&self, key: &K) -> (r: Option<&V>)
        requires
            self.wf(),
        ensures
            match r {
                Some(v) => self.view().contains_key(key@) && *v == self.view()[key@],
                None => !self.view().contains_key(key@),
            },
    {
        match self.find(key) {
            Some(i) => {
                proof { self.lemma_view_at(i as int); }
                Some(&self.entries[i].1)
            },
            None => None,
        }
    }

    /// Adds an entry for a key that is not in the table yet; hands the pair
    /// back untouched where the key is already present.
    pub fn insert_new(&mut self, key: K, value: V) -> (r: Result<(), (K, V)>)
        requires
            old(self).wf(),
        ensures
            final(self).wf(),
            old(self).view().contains_key(key@) ==> {
                &&& r == Err::<(), (K, V)>((key, value))
                &&& final(self).view() == old(self).view()
                &&& final(self).entries() == old(self).entries()
            },
            !old(self).view().contains_key(key@) ==> {
                &&& r is Ok
                &&& final(self).view() == old(self).view().insert(key@, value)
                &&& final(self).entries() == old(self).entries().push((key@, value))
            },
    {
        if self.find(&key).is_some() {
            return Err((key, value));
        }
        let ghost kv = key@;
        let ghost old_entries = self.entries@;
        self.entries.push((key, value));
        proof {
            assert forall|i: int, j: int|
                0 <= i < self.entries@.len() && 0 <= j < self.entries@.len() && i != j
                implies self.entries@[i].0@ != self.entries@[j].0@ by {
                if i < old_entries.len() && j < old_entries.len() {
                    assert(old_entries[i] == self.entries@[i]);
                    assert(old_entries[j] == self.entries@[j]);
                }
            }
            assert forall|k: K::V| #[trigger] self.view().contains_key(k)
                <==> old(self).view().insert(kv, value).contains_key(k) by {
                if k != kv && self.view().contains_key(k) {
                    let c = choose|j: int| 0 <= j < self.entries@.len() && self.entries@[j].0@ == k;
                    assert(old_entries[c] == self.entries@[c]);
                }
                if k != kv && old(self).view().contains_key(k) {
                    let c = choose|j: int| 0 <= j < old_entries.len() && old_entries[j].0@ == k;
                    assert(old_entries[c] == self.entries@[c]);
                }
                if k == kv {
                    assert(self.entries@[old_entries.len() as int].0@ == kv);
                }
            }
            assert forall|k: K::V| #[trigger] self.view().contains_key(k) implies self.view()[k]
                == old(self).view().insert(kv, value)[k] by {
                let c = choose|j: int| 0 <= j < self.entries@.len() && self.entries@[j].0@ == k;
                self.lemma_view_at(c);
                if k != kv {
                    assert(old_entries[c] == self.entries@[c]);
                    old(self).lemma_view_at(c);
                } else {
                    self.lemma_view_at(old_entries.len() as int);
                }
            }
            assert(self.view() =~= old(self).view().insert(kv, value));
            assert(self.entries() =~= old(self).entries().push((kv, value)));
        }
        Ok(())
    }

    /// Takes the entry for `key` out of the table.
    pub fn remove(&mut self, key: &K) -> (r: Option<V>)
        requires
            old(self).wf(),
        ensures
            final(self).wf(),
            final(self).view() == old(self).view().remove(key@),
            match r {
                Some(v) => old(self).view().contains_key(key@) && v == old(self).view()[key@],
                None => !old(self).view().contains_key(key@) && final(self).entries()
                    == old(self).entries(),
            },
    {
        match self.find(key) {
            None => {
                proof { assert(self.view() =~= old(self).view().remove(key@)); }
                None
            },
            Some(i) => {
                proof { self.lemma_view_at(i as int); }
                let ghost old_entries = self.entries@;
                let (_, v) = self.entries.remove(i);
                proof {
                    let kv = key@;
                    assert forall|a: int, b: int|
                        0 <= a < self.entries@.len() && 0 <= b < self.entries@.len() && a != b
                        implies self.entries@[a].0@ != self.entries@[b].0@ by {
                        let a2 = if a < i { a } else { a + 1 };
                        let b2 = if b < i { b } else { b + 1 };
                        assert(self.entries@[a] == old_entries[a2]);
                        assert(self.entries@[b] == old_entries[b2]);
                    }
                    assert forall|k: K::V| #[trigger] self.view().contains_key(k)
                        <==> old(self).view().remove(kv).contains_key(k) by {
                        if self.view().contains_key(k) {
                            let c = choose|j: int| 0 <= j < self.entries@.len() && self.entries@[j].0@ == k;
                            let c2 = if c < i { c } else { c + 1 };
                            assert(self.entries@[c] == old_entries[c2]);
                        }
                        if old(self).view().remove(kv).contains_key(k) {
                            let c = choose|j: int| 0 <= j < old_entries.len() && old_entries[j].0@ == k;
                            assert(c != i);
                            let c2 = if c < i { c } else { c - 1 };
                            assert(self.entries@[c2] == old_entries[c]);
                        }
                    }
                    assert forall|k: K::V| #[trigger] self.view().contains_key(k) implies self.view()[k]
                        == old(self).view().remove(kv)[k] by {
                        let c = choose|j: int| 0 <= j < self.entries@.len() && self.entries@[j].0@ == k;
                        self.lemma_view_at(c);
                        let c2 = if c < i { c } else { c + 1 };
                        assert(self.entries@[c] == old_entries[c2]);
                        old(self).lemma_view_at(c2);
                    }
                    assert(self.view() =~= old(self).view().remove(kv));
                }
                Some(v)
            },
        }
    }

    /// Sets the value of `key`, replacing and handing back the value it had.
    pub fn insert(&mut self, key: K, value: V) -> (r: Option<V>)
        requires
            old(self).wf(),
        ensures
            final(self).wf(),
            final(self).view() == old(self).view().insert(key@, value),
            match r {
                Some(v) => old(self).view().contains_key(key@) && v == old(self).view()[key@],
                None => !old(self).view().contains_key(key@),
            },
    {
        let previous = self.remove(&key);
        let ghost k = key@;
        let _ = self.insert_new(key, value);
        proof {
            assert(self.view() =~= old(self).view().insert(k, value));
        }
        previous
    }

    /// Removes every entry.
    pub fn clear(&mut self)
        ensures
            final(self).wf(),
            final(self).view() == Map::<K::V, V>::empty(),
            final(self).entries() == Seq::<(K::V, V)>::empty(),
    {
        self.entries = Vec::new();
        proof {
            assert(self.view() =~= Map::<K::V, V>::empty());
            assert(self.entries() =~= Seq::<(K::V, V)>::empty());
        }
    }

    /// The keys in insertion order.
    pub fn keys(&self) -> (r: Vec<K>)
        requires
            self.wf(),
        ensures
            r@.len() == self.entries().len(),
            forall|i: int| 0 <= i < r@.len() ==> #[trigger] r@[i]@ == self.entries()[i].0,
    {
        let mut out: Vec<K> = Vec::new();
        let mut i: usize = 0;
        while i < self.entries.len()
            invariant
                i <= self.entries@.len(),
                out@.len() == i,
                forall|j: int| 0 <= j < i ==> #[trigger] out@[j]@ == self.entries@[j].0@,
            decreases self.entries@.len() - i,
        {
            out.push(self.entries[i].0.copy_key());
            i = i + 1;
        }
        out
    }
}

} // verus!
