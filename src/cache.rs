//! An in-memory cache whose entries expire. Times are milliseconds read from
//! the cache's own monotonic clock; the `_at` methods take the reading.
use vstd::prelude::*;
use std::collections::HashMap;
use std::collections::hash_map::RandomState;
use vstd::std_specs::hash::{obeys_key_model, builds_valid_hashers};
use crate::time::{instant_now, millis_since};

verus! {

broadcast use vstd::std_specs::hash::group_hash_axioms;

/// A cached value and the clock reading from which it is stale.
pub struct CacheEntry<V> {
    pub value: V,
    pub expires_at_ms: u64,
}

/// Values by key, each with an expiry.
pub struct Cache<K, V> {
    pub data: HashMap<K, CacheEntry<V>>,
    pub default_ttl_ms: u64,
    /// Where the cache's clock starts.
    pub origin: std::time::Instant,
}

/// The map specifications of the standard library apply to these keys.
pub open spec fn keys_behave<K>() -> bool {
    obeys_key_model::<K>() && builds_valid_hashers::<RandomState>()
}

/// The expiry of `ttl` from `now`, saturating.
pub open spec fn expiry(now: u64, ttl: u64) -> u64 {
    if now + ttl <= u64::MAX { (now + ttl) as u64 } else { u64::MAX }
}

/// Whether the entry is still fresh at `now`.
pub fn entry_is_fresh<V>(entry: &CacheEntry<V>, now: u64) -> (r: bool)
    ensures
        r == (entry.expires_at_ms > now),
{
    entry.expires_at_ms > now
}

/// Relies on `HashMap::retain`: the entries for which the predicate is false
/// are removed and the others are kept unchanged.
#[verifier::external_body]
fn retain_fresh<K: std::hash::Hash + Eq, V>(data: &mut HashMap<K, CacheEntry<V>>, now: u64)
    ensures
        keys_behave::<K>() ==> final(data)@ == old(data)@.restrict(
            old(data)@.dom().filter(|k: K| old(data)@[k].expires_at_ms > now),
        ),
{
    data.retain(|_, entry| entry_is_fresh(entry, now));
}

impl<K: std::hash::Hash + Eq + Clone, V> Cache<K, V> {
    pub fn new(default_ttl_ms: u64) -> (r: Self)
        ensures
            r.default_ttl_ms == default_ttl_ms,
            keys_behave::<K>() ==> r.data@.is_empty(),
    {
        Cache { data: HashMap::new(), default_ttl_ms, origin: instant_now() }
    }

    /// Milliseconds on the cache's clock.
    pub fn now_ms(&self) -> u64 {
        millis_since(&self.origin)
    }

    /// The value under `key` if it is still fresh at `now`.
    pub fn get_at(&self, key: &K, now: u64) -> (r: Option<&V>)
        ensures
            keys_behave::<K>() ==> match self.data@.get(*key) {
                Some(e) => if e.expires_at_ms > now {
                    r matches Some(v) && *v == e.value
                } else {
                    r is None
                },
                None => r is None,
            },
    {
        match self.data.get(key) {
            Some(entry) => if entry.expires_at_ms > now { Some(&entry.value) } else { None },
            None => None,
        }
    }

    /// The value under `key` if it is still fresh.
    pub fn get(&self, key: &K) -> (r: Option<&V>)
        ensures
            keys_behave::<K>() ==> (r matches Some(v) ==> self.data@.contains_key(*key) && *v
                == self.data@[*key].value),
    {
        let now = self.now_ms();
        self.get_at(key, now)
    }

    /// Stores `value` under `key`, fresh for `ttl_ms` from `now`.
    pub fn insert_with_ttl_at(&mut self, key: K, value: V, ttl_ms: u64, now: u64)
        ensures
            final(self).default_ttl_ms == old(self).default_ttl_ms,
            keys_behave::<K>() ==> final(self).data@ == old(self).data@.insert(
                key,
                CacheEntry { value, expires_at_ms: expiry(now, ttl_ms) },
            ),
    {
        let expires_at_ms = now.saturating_add(ttl_ms);
        self.data.insert(key, CacheEntry { value, expires_at_ms });
    }

    /// Stores `value` under `key`, fresh for `ttl_ms` from now.
    pub fn insert_with_ttl(&mut self, key: K, value: V, ttl_ms: u64)
        ensures
            final(self).default_ttl_ms == old(self).default_ttl_ms,
            keys_behave::<K>() ==> exists|now: u64| final(self).data@ == old(self).data@.insert(
                key,
                CacheEntry { value, expires_at_ms: expiry(now, ttl_ms) },
            ),
    {
        let now = self.now_ms();
        self.insert_with_ttl_at(key, value, ttl_ms, now);
    }

    /// Stores `value` under `key` for the default time.
    pub fn insert(&mut self, key: K, value: V)
        ensures
            final(self).default_ttl_ms == old(self).default_ttl_ms,
            keys_behave::<K>() ==> exists|now: u64| final(self).data@ == old(self).data@.insert(
                key,
                CacheEntry { value, expires_at_ms: expiry(now, old(self).default_ttl_ms) },
            ),
    {
        let ttl = self.default_ttl_ms;
        self.insert_with_ttl(key, value, ttl);
    }

    /// Takes out the value under `key`, fresh or not.
    pub fn remove(&mut self, key: &K) -> (r: Option<V>)
        ensures
            final(self).default_ttl_ms == old(self).default_ttl_ms,
            keys_behave::<K>() ==> final(self).data@ == old(self).data@.remove(*key),
            keys_behave::<K>() ==> match old(self).data@.get(*key) {
                Some(e) => r == Some(e.value),
                None => r is None,
            },
    {
        match self.data.remove(key) {
            Some(entry) => Some(entry.value),
            None => None,
        }
    }

    /// Drops every entry.
    pub fn clear(&mut self)
        ensures
            final(self).default_ttl_ms == old(self).default_ttl_ms,
            keys_behave::<K>() ==> final(self).data@.is_empty(),
    {
        self.data.clear();
    }

    /// Drops the entries that are stale at `now`; the fresh ones stay as
    /// they were.
    pub fn cleanup_expired_at(&mut self, now: u64)
        ensures
            final(self).default_ttl_ms == old(self).default_ttl_ms,
            keys_behave::<K>() ==> final(self).data@ == old(self).data@.restrict(
                old(self).data@.dom().filter(|k: K| old(self).data@[k].expires_at_ms > now),
            ),
    {
        retain_fresh(&mut self.data, now);
    }

    /// Drops the entries that are stale now.
    pub fn cleanup_expired(&mut self)
        ensures
            final(self).default_ttl_ms == old(self).default_ttl_ms,
    {
        let now = self.now_ms();
        self.cleanup_expired_at(now);
    }
}

} // verus!
