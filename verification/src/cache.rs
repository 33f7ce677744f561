//! The memoizing cache's value store.
//!
//! `Cache` is the append-only key/value map behind the single-flight
//! cache: once a key's value is published it is never replaced or
//! removed. The map itself is a sequential structure; the concurrent
//! shell keeps it behind a lock and touches it only in the two short
//! critical sections verified here (`get`, the fast path, and `insert`,
//! the publish step), while `get_or_insert_with` is the whole
//! read-or-produce operation as one caller observes it. Which of many
//! racing callers gets to run the producer is decided by the in-flight
//! markers of `crate::flight`.

use vstd::prelude::*;
use std::collections::HashMap;

verus! {

/// Cache that remembers the result for each key.
pub struct Cache<V> {
    values: HashMap<u64, V>,
}

impl<V> Cache<V> {
    /// The published entries, as a map from key to value.
    pub closed spec fn view(&self) -> Map<u64, V> {
        self.values@
    }
}

impl<V> Default for Cache<V> {
    /// An empty cache: nothing is published.
    fn default() -> (r: Self)
        ensures
            r@ == Map::<u64, V>::empty(),
    {
        Cache { values: HashMap::new() }
    }
}

impl<V: Clone> Cache<V> {
    /// The fast path: look the key up and hand back a clone of its
    /// published value, if there is one. Nothing is written.
    pub fn get(&self, key: u64) -> (r: Option<V>)
        ensures
            r is Some <==> self@.contains_key(key),
            r matches Some(v) ==> cloned(self@[key], v),
    {
        match self.values.get(&key) {
            Some(v) => Some(v.clone()),
            None => None,
        }
    }

    /// The publish step: store the value produced for `key`. Only the
    /// one producer of `key` ever does this, so the key cannot be
    /// present yet — the cache is append-only and published values are
    /// immutable.
    pub fn insert(&mut self, key: u64, value: V)
        requires
            !old(self)@.contains_key(key),
        ensures
            final(self)@ == old(self)@.insert(key, value),
    {
        self.values.insert(key, value);
    }

    /// Retrieve the value or insert a new one created by `f`.
    ///
    /// If `key` is already published, its value is returned and `f` is
    /// not consulted in any way; otherwise `f` runs once on the key and
    /// its result is published and returned.
    pub fn get_or_insert_with<F: FnOnce(u64) -> V>(&mut self, key: u64, f: F) -> (v: V)
        requires
            !old(self)@.contains_key(key) ==> call_requires(f, (key,)),
        ensures
            final(self)@.contains_key(key),
            cloned(final(self)@[key], v),
            old(self)@.contains_key(key) ==> final(self)@ == old(self)@,
            !old(self)@.contains_key(key) ==> call_ensures(f, (key,), final(self)@[key])
                && final(self)@ == old(self)@.insert(key, final(self)@[key]),
    {
        let existing = self.get(key);
        match existing {
            Some(v) => v,
            None => {
                let produced = f(key);
                let out = produced.clone();
                self.values.insert(key, produced);
                out
            },
        }
    }
}

} // verus!
