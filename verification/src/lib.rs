//! An append-mostly keyed cache.
//!
//! [`Cachr`] maps keys to owned values, each value stored behind its own heap
//! allocation so that the value's storage is independent of the index
//! structure that serves lookups. The shared-mode operations (`insert`,
//! `get`, `get_or_insert`) only ever grow the mapping: an entry, once
//! inserted, is never removed or overwritten by them, and re-inserting a
//! present key is a silent no-op (first write wins). Overwriting or removing
//! an entry is possible only through exclusive access to the underlying
//! index, where no reference into the cache can still be live.

use vstd::prelude::*;

use core::hash::Hash;
use std::collections::HashMap;
use std::collections::hash_map::Entry;
use vstd::std_specs::hash::obeys_key_model;

pub mod laws;

verus! {

/// The model of a raw index: each heap cell collapses to the value it holds.
pub open spec fn unboxed<K, V>(m: Map<K, Box<V>>) -> Map<K, V> {
    m.map_values(|b: Box<V>| *b)
}

/// The effect of a shared-mode insertion on the cache's mathematical model:
/// a present key keeps its original value (first write wins); an absent key
/// is bound to the new value.
pub open spec fn cache_insert<K, V>(m: Map<K, V>, key: K, value: V) -> Map<K, V> {
    if m.contains_key(key) {
        m
    } else {
        m.insert(key, value)
    }
}

/// A keyed cache that owns its entries and only grows under shared-mode use.
///
/// The value of each entry sits in its own heap cell, so growth of the index
/// never relocates a stored value. Entries inserted through the shared-mode
/// operations stay untouched for the container's whole lifetime; re-inserting
/// a present key keeps the original value.
#[derive(Debug)]
#[verifier::ext_equal]
pub struct Cachr<K, V> {
    inner: HashMap<K, Box<V>>,
}

impl<K, V> View for Cachr<K, V> {
    type V = Map<K, V>;

    closed spec fn view(&self) -> Map<K, V> {
        unboxed(self.inner@)
    }
}

impl<K: Eq + Hash, V> Cachr<K, V> {
    /// Creates an empty cache.
    pub fn new() -> (result: Self)
        ensures
            result@ == Map::<K, V>::empty(),
    {
        let result = Cachr { inner: HashMap::new() };
        proof {
            assert(result@ =~= Map::<K, V>::empty());
        }
        result
    }

    /// Inserts `value` under `key` if `key` is absent. If `key` is already
    /// bound, the call is a silent no-op: overwriting is kept out of the
    /// shared-mode interface so that entries, once seen, never change.
    pub fn insert(&mut self, key: K, value: V)
        requires
            obeys_key_model::<K>(),
        ensures
            final(self)@ == cache_insert(old(self)@, key, value),
    {
        if !self.inner.contains_key(&key) {
            self.inner.insert(key, Box::new(value));
            proof {
                assert(self@ =~= cache_insert(old(self)@, key, value));
            }
        } else {
            proof {
                assert(self@ =~= cache_insert(old(self)@, key, value));
            }
        }
    }

    /// Returns a reference to the value stored under `key`, or `None` when
    /// `key` is absent.
    pub fn get(&self, key: K) -> (result: Option<&V>)
        requires
            obeys_key_model::<K>(),
        ensures
            match result {
                Some(v) => self@.contains_key(key) && *v == self@[key],
                None => !self@.contains_key(key),
            },
    {
        match self.inner.get(&key) {
            Some(b) => Some(&**b),
            None => None,
        }
    }

    /// Looks up `key`; on a hit, returns a reference to the existing value
    /// without evaluating `f`, and on a miss, evaluates `f` once, stores its
    /// result under `key`, and returns a reference to the stored value.
    pub fn get_or_insert<F: FnOnce() -> V>(&mut self, key: K, f: F) -> (result: &V)
        requires
            obeys_key_model::<K>(),
            !old(self)@.contains_key(key) ==> call_requires(f, ()),
        ensures
            final(self)@ =~= cache_insert(old(self)@, key, *result),
            final(self)@.contains_key(key) && *result == final(self)@[key],
            old(self)@.contains_key(key) ==> *result == old(self)@[key],
            !old(self)@.contains_key(key) ==> call_ensures(f, (), *result),
    {
        match self.inner.entry(key) {
            Entry::Occupied(e) => &**e.into_mut(),
            Entry::Vacant(e) => &**e.insert(Box::new(f())),
        }
    }

    /// Like [`Cachr::insert`], but takes a value already in its own heap
    /// cell, which is stored as it is.
    pub fn insert_boxed(&mut self, key: K, value: Box<V>)
        requires
            obeys_key_model::<K>(),
        ensures
            final(self)@ == cache_insert(old(self)@, key, *value),
    {
        if !self.inner.contains_key(&key) {
            self.inner.insert(key, value);
            proof {
                assert(self@ =~= cache_insert(old(self)@, key, *value));
            }
        } else {
            proof {
                assert(self@ =~= cache_insert(old(self)@, key, *value));
            }
        }
    }

    /// Like [`Cachr::get_or_insert`], but `f` hands the value over in its
    /// own heap cell, which is stored as it is on a miss.
    pub fn get_or_insert_boxed<F: FnOnce() -> Box<V>>(&mut self, key: K, f: F) -> (result: &V)
        requires
            obeys_key_model::<K>(),
            !old(self)@.contains_key(key) ==> call_requires(f, ()),
        ensures
            final(self)@ =~= cache_insert(old(self)@, key, *result),
            final(self)@.contains_key(key) && *result == final(self)@[key],
            old(self)@.contains_key(key) ==> *result == old(self)@[key],
            !old(self)@.contains_key(key) ==> call_ensures(f, (), Box::new(*result)),
    {
        match self.inner.entry(key) {
            Entry::Occupied(e) => &**e.into_mut(),
            Entry::Vacant(e) => &**e.insert(f()),
        }
    }

    /// Returns a reference to the value stored under `key`. The caller must
    /// know the key to be present; [`Cachr::get`] reports absence instead.
    pub fn index(&self, key: K) -> (result: &V)
        requires
            obeys_key_model::<K>(),
            self@.contains_key(key),
        ensures
            *result == self@[key],
    {
        match self.inner.get(&key) {
            Some(b) => &**b,
            None => unreached(),
        }
    }
}

impl<K, V> Cachr<K, V> {
    /// Exclusive-mode access: hands out the raw underlying index, on which
    /// entries may be overwritten, removed, or walked. Exclusive access to
    /// the cache means no reference into it is still live, so the stability
    /// promise of the shared-mode interface is not at stake here.
    pub fn as_mut(&mut self) -> (result: &mut HashMap<K, Box<V>>)
        ensures
            unboxed((*result)@) == old(self)@,
            final(self)@ == unboxed((*final(result))@),
    {
        &mut self.inner
    }
}

impl<K: Eq + Hash, V> Default for Cachr<K, V> {
    /// Creates an empty cache.
    fn default() -> (result: Self)
        ensures
            result@ == Map::<K, V>::empty(),
    {
        Cachr::new()
    }
}

impl<K, V> From<HashMap<K, Box<V>>> for Cachr<K, V> {
    /// Adopts an existing index, cells and all, as a cache.
    fn from(hashmap: HashMap<K, Box<V>>) -> (result: Self)
        ensures
            result@ == unboxed(hashmap@),
    {
        Cachr { inner: hashmap }
    }
}

impl<K, V> vstd::std_specs::convert::FromSpecImpl<HashMap<K, Box<V>>> for Cachr<K, V> {
    open spec fn obeys_from_spec() -> bool {
        true
    }

    closed spec fn from_spec(hashmap: HashMap<K, Box<V>>) -> Self {
        Cachr { inner: hashmap }
    }
}

} // verus!
