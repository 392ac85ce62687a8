//! A small least-recently-used cache: a capacity, a store of entries each
//! carrying the access stamp of its last touch, and a running access
//! counter handing out stamps. When a new key arrives at a full cache, the
//! entry with the smallest stamp leaves.
//!
//! The workload the locks of this crate are exercised with: one of these
//! caches behind a lock is the shared state of the crate's example
//! programs.

use vstd::prelude::*;

use vstd::pervasive::cloned;
use vstd::std_specs::cmp::PartialEqSpec;

verus! {

/// The access counter after one more touch; it stays put at its largest
/// value instead of wrapping.
pub open spec fn next_counter(c: u64) -> u64 {
    if c < u64::MAX {
        (c + 1) as u64
    } else {
        c
    }
}

/// `i` is the first position of `s` whose stamp is smallest: no stamp is
/// smaller, and every earlier stamp is strictly larger.
pub open spec fn is_first_min_stamp<K, V>(s: Seq<(K, V, u64)>, i: int) -> bool {
    &&& 0 <= i < s.len()
    &&& forall|j: int| 0 <= j < s.len() ==> s[i].2 <= (#[trigger] s[j]).2
    &&& forall|j: int| 0 <= j < i ==> s[i].2 < (#[trigger] s[j]).2
}

/// `i` is the first position of `s` whose key equals `key`.
pub open spec fn is_first_key_match<K: PartialEq, V>(s: Seq<(K, V, u64)>, key: K, i: int) -> bool {
    &&& 0 <= i < s.len()
    &&& s[i].0.eq_spec(&key)
    &&& forall|j: int| 0 <= j < i ==> !(#[trigger] s[j]).0.eq_spec(&key)
}

/// Some position of `s` holds a key equal to `key`.
pub open spec fn contains_key<K: PartialEq, V>(s: Seq<(K, V, u64)>, key: K) -> bool {
    exists|i: int| 0 <= i < s.len() && (#[trigger] s[i]).0.eq_spec(&key)
}

/// Simple LRU cache: entries with access stamps behind a linear store.
pub struct SimpleLruCache<K, V> where K: core::hash::Hash + Eq + Clone, V: Clone {
    capacity: usize,
    entries: Vec<(K, V, u64)>,
    access_counter: u64,
}

impl<K, V> SimpleLruCache<K, V> where K: core::hash::Hash + Eq + Clone, V: Clone {
    /// The entries, each a key, its value and the stamp of its last touch.
    pub closed spec fn entries_spec(self) -> Seq<(K, V, u64)> {
        self.entries@
    }

    /// The capacity fixed at creation.
    pub closed spec fn capacity_spec(self) -> usize {
        self.capacity
    }

    /// The access counter: the stamp handed out by the latest touch.
    pub closed spec fn counter_spec(self) -> u64 {
        self.access_counter
    }

    /// Every stamp was handed out by the counter, and when key equality
    /// obeys its specification, no key occurs twice.
    pub open spec fn wf(self) -> bool {
        &&& forall|i: int|
            0 <= i < self.entries_spec().len() ==> (#[trigger] self.entries_spec()[i]).2
                <= self.counter_spec()
        &&& (<K as PartialEqSpec>::obeys_eq_spec() ==> forall|i: int, j: int|
            0 <= i < j < self.entries_spec().len() ==> !(#[trigger] self.entries_spec()[i]).0
                .eq_spec(&(#[trigger] self.entries_spec()[j]).0))
    }

    /// An empty cache that will hold at most `capacity` entries.
    pub fn new(capacity: usize) -> (r: Self)
        ensures
            r.wf(),
            r.capacity_spec() == capacity,
            r.counter_spec() == 0,
            r.entries_spec() == Seq::<(K, V, u64)>::empty(),
    {
        SimpleLruCache { capacity, entries: Vec::new(), access_counter: 0 }
    }

    /// The first position holding `key`, when key equality obeys its
    /// specification; the first position the store's own equality accepts
    /// otherwise.
    fn find_key(&self, key: &K) -> (r: Option<usize>)
        ensures
            r matches Some(i) ==> (i as int) < self.entries_spec().len(),
            <K as PartialEqSpec>::obeys_eq_spec() ==> match r {
                Some(i) => is_first_key_match(self.entries_spec(), *key, i as int),
                None => !contains_key(self.entries_spec(), *key),
            },
    {
        let mut i: usize = 0;
        while i < self.entries.len()
            invariant
                i <= self.entries@.len(),
                <K as PartialEqSpec>::obeys_eq_spec() ==> forall|j: int|
                    0 <= j < i ==> !(#[trigger] self.entries@[j]).0.eq_spec(key),
            decreases self.entries@.len() - i,
        {
            let e = &self.entries[i];
            if e.0.eq(key) {
                return Some(i);
            }
            i = i + 1;
        }
        None
    }

    /// The first position whose stamp is smallest; the entry that leaves
    /// when a new key arrives at a full cache.
    fn find_oldest(&self) -> (r: usize)
        requires
            self.entries_spec().len() > 0,
        ensures
            is_first_min_stamp(self.entries_spec(), r as int),
    {
        let mut best: usize = 0;
        let mut i: usize = 1;
        while i < self.entries.len()
            invariant
                0 <= best < i <= self.entries@.len(),
                self.entries@.len() > 0,
                forall|j: int| 0 <= j < i ==> self.entries@[best as int].2 <= (
                #[trigger] self.entries@[j]).2,
                forall|j: int| 0 <= j < best ==> self.entries@[best as int].2 < (
                #[trigger] self.entries@[j]).2,
            decreases self.entries@.len() - i,
        {
            if self.entries[i].2 < self.entries[best].2 {
                best = i;
            }
            i = i + 1;
        }
        best
    }

    /// Stores `value` under `key` with a fresh stamp. An already-present
    /// key is updated in place; a new key is appended, and when the cache
    /// is full the entry with the smallest stamp is evicted first.
    pub fn set(&mut self, key: K, value: V)
        requires
            old(self).wf(),
        ensures
            final(self).wf(),
            final(self).capacity_spec() == old(self).capacity_spec(),
            final(self).counter_spec() == next_counter(old(self).counter_spec()),
            <K as PartialEqSpec>::obeys_eq_spec() ==> {
                let s = old(self).entries_spec();
                let stamp = next_counter(old(self).counter_spec());
                if contains_key(s, key) {
                    exists|i: int|
                        is_first_key_match(s, key, i) && final(self).entries_spec() == s.update(
                            i,
                            (s[i].0, value, stamp),
                        )
                } else if s.len() >= old(self).capacity_spec() && s.len() > 0 {
                    exists|i: int|
                        is_first_min_stamp(s, i) && final(self).entries_spec() == s.remove(
                            i,
                        ).push((key, value, stamp))
                } else {
                    final(self).entries_spec() == s.push((key, value, stamp))
                }
            },
    {
        let stamp: u64 = if self.access_counter < u64::MAX {
            self.access_counter + 1
        } else {
            self.access_counter
        };
        self.access_counter = stamp;
        match self.find_key(&key) {
            Some(i) => {
                let e = &mut self.entries[i];
                e.1 = value;
                e.2 = stamp;
            },
            None => {
                if self.entries.len() >= self.capacity && self.entries.len() > 0 {
                    let victim = self.find_oldest();
                    self.entries.remove(victim);
                }
                self.entries.push((key, value, stamp));
            },
        }
    }

    /// Looks `key` up: a present key's entry gets a fresh stamp — that is
    /// what makes recently-read entries survive eviction — and a clone of
    /// its value comes back; a missing key changes nothing.
    pub fn get(&mut self, key: &K) -> (r: Option<V>)
        requires
            old(self).wf(),
        ensures
            final(self).wf(),
            final(self).capacity_spec() == old(self).capacity_spec(),
            <K as PartialEqSpec>::obeys_eq_spec() ==> {
                let s = old(self).entries_spec();
                let stamp = next_counter(old(self).counter_spec());
                if contains_key(s, *key) {
                    &&& final(self).counter_spec() == stamp
                    &&& exists|i: int|
                        is_first_key_match(s, *key, i) && final(self).entries_spec()
                            == s.update(i, (s[i].0, s[i].1, stamp)) && (r matches Some(v)
                            && cloned::<V>(s[i].1, v))
                } else {
                    r is None && *final(self) == *old(self)
                }
            },
    {
        match self.find_key(key) {
            Some(i) => {
                let stamp: u64 = if self.access_counter < u64::MAX {
                    self.access_counter + 1
                } else {
                    self.access_counter
                };
                self.access_counter = stamp;
                let e = &mut self.entries[i];
                e.2 = stamp;
                let value = e.1.clone();
                Some(value)
            },
            None => None,
        }
    }
}

} // verus!
