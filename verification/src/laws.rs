//! Laws of the cache's model.
//!
//! The shared-mode operations of [`crate::Cachr`] promise, through their
//! contracts, that the cache's model evolves by [`crate::cache_insert`]
//! alone, and the exclusive-mode escape hatch works on the raw index that
//! [`crate::unboxed`] collapses to the model. The proofs here state what
//! that discipline guarantees across calls.

use vstd::prelude::*;

verus! {

use crate::cache_insert;
use crate::unboxed;

/// A key that was never bound stays absent: a shared-mode insertion under a
/// different key cannot make it appear.
pub proof fn lemma_absent_key_stays_absent<K, V>(m: Map<K, V>, key: K, value: V, other: K)
    requires
        !m.contains_key(other),
        other != key,
    ensures
        !cache_insert(m, key, value).contains_key(other),
{
}

/// A shared-mode insertion under an absent key binds that key to exactly the
/// value given, so a later lookup of the key finds that value.
pub proof fn lemma_insert_then_found<K, V>(m: Map<K, V>, key: K, value: V)
    requires
        !m.contains_key(key),
    ensures
        cache_insert(m, key, value).contains_key(key),
        cache_insert(m, key, value)[key] == value,
{
}

/// The first write wins: a shared-mode insertion under a present key leaves
/// the whole cache, and in particular that key's value, exactly as it was.
pub proof fn lemma_first_write_wins<K, V>(m: Map<K, V>, key: K, value: V)
    requires
        m.contains_key(key),
    ensures
        cache_insert(m, key, value) == m,
        cache_insert(m, key, value)[key] == m[key],
{
}

/// Stability: no shared-mode insertion, under whatever key and value, ever
/// changes an entry that is already present. What a lookup returned once, it
/// returns after any number of further insertions.
pub proof fn lemma_present_entry_stable<K, V>(m: Map<K, V>, key: K, value: V, held: K)
    requires
        m.contains_key(held),
    ensures
        cache_insert(m, key, value).contains_key(held),
        cache_insert(m, key, value)[held] == m[held],
{
}

/// An exclusive-mode overwrite on the raw index carries over to the model:
/// the cache then maps the key to the new cell's value, which is what
/// shared-mode lookups read afterwards.
pub proof fn lemma_exclusive_overwrite_visible<K, V>(m: Map<K, Box<V>>, key: K, cell: Box<V>)
    ensures
        unboxed(m.insert(key, cell)) =~= unboxed(m).insert(key, *cell),
{
}

} // verus!
