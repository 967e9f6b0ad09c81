//! A bounded store of expiring string entries.
use std::collections::hash_map::RandomState;
use std::hash::BuildHasher;
use std::time::Duration;
use ttl_cache::TtlCache;
use vstd::prelude::*;

verus! {

#[verifier::external_type_specification]
#[verifier::external_body]
#[verifier::reject_recursive_types(K)]
#[verifier::reject_recursive_types(V)]
#[verifier::reject_recursive_types(S)]
pub struct ExTtlCache<K: Eq + core::hash::Hash, V, S: BuildHasher>(TtlCache<K, V, S>);

/// A cache model with no entries.
pub open spec fn no_entries() -> Map<Seq<char>, Seq<char>> {
    Map::empty()
}

/// The entries a cache holds, live or expired, by key.
pub uninterp spec fn cache_entries(c: TtlCache<String, String, RandomState>) -> Map<Seq<char>, Seq<char>>;

/// The number of entries the cache was made to hold.
pub uninterp spec fn cache_capacity(c: TtlCache<String, String, RandomState>) -> nat;

/// Relies on ttl_cache's `TtlCache::new`: an empty cache of that capacity.
#[verifier::external_body]
fn cache_new(capacity: usize) -> (r: TtlCache<String, String, RandomState>)
    ensures
        cache_entries(r) == no_entries(),
        cache_capacity(r) == capacity,
{
    TtlCache::new(capacity)
}

/// The longest lifetime of an entry, in seconds: the expiry instant is the
/// time now plus the lifetime, which must stay representable.
pub const MAX_TTL_SECS: u64 = 4294967295;

/// Relies on ttl_cache's `TtlCache::insert`: the entry replaces any one of
/// that key; when the cache then holds more than its capacity, the oldest
/// entry leaves. It returns the replaced value if that had not expired.
#[verifier::external_body]
fn cache_insert(c: &mut TtlCache<String, String, RandomState>, key: String, value: String, ttl_secs: u64) -> (r: Option<String>)
    requires
        ttl_secs <= MAX_TTL_SECS,
    ensures
        cache_capacity(*final(c)) == cache_capacity(*old(c)),
        cache_capacity(*old(c)) > 0 ==> cache_entries(*final(c)).contains_key(key@)
            && cache_entries(*final(c))[key@] == value@,
        forall|k: Seq<char>| #[trigger] cache_entries(*final(c)).contains_key(k) ==> k == key@ || (
            cache_entries(*old(c)).contains_key(k) && cache_entries(*final(c))[k] == cache_entries(*old(c))[k]),
        r matches Some(v) ==> cache_entries(*old(c)).contains_key(key@) && cache_entries(*old(c))[key@] == v@,
{
    c.insert(key, value, Duration::from_secs(ttl_secs))
}

/// Relies on ttl_cache's `TtlCache::get`: the value of the key, unless it is
/// absent or has expired.
#[verifier::external_body]
fn cache_get(c: &TtlCache<String, String, RandomState>, key: &String) -> (r: Option<String>)
    ensures
        r matches Some(v) ==> cache_entries(*c).contains_key(key@) && cache_entries(*c)[key@] == v@,
        !cache_entries(*c).contains_key(key@) ==> r is None,
{
    c.get(key).cloned()
}

/// Relies on ttl_cache's `TtlCache::clear`: every entry leaves.
#[verifier::external_body]
fn cache_clear(c: &mut TtlCache<String, String, RandomState>)
    ensures
        cache_entries(*final(c)) == no_entries(),
        cache_capacity(*final(c)) == cache_capacity(*old(c)),
{
    c.clear()
}

/// The capacity of the process-wide cache.
pub const CACHE_CAPACITY: usize = 100;

/// A bounded key-value store whose entries expire.
pub struct CacheStore {
    cache: TtlCache<String, String, RandomState>,
}

/// What a lookup of `key` may return when the store holds `entries`.
pub open spec fn lookup_allows(entries: Map<Seq<char>, Seq<char>>, key: Seq<char>, r: Option<Seq<char>>) -> bool {
    match r {
        Some(v) => entries.contains_key(key) && entries[key] == v,
        None => true,
    }
}

impl CacheStore {
    /// The entries held, live or expired.
    pub closed spec fn view(&self) -> Map<Seq<char>, Seq<char>> {
        cache_entries(self.cache)
    }

    pub closed spec fn capacity(&self) -> nat {
        cache_capacity(self.cache)
    }

    /// An empty store for at most `capacity` entries.
    pub fn new(capacity: usize) -> (r: CacheStore)
        ensures
            r@ == no_entries(),
            r.capacity() == capacity,
    {
        CacheStore { cache: cache_new(capacity) }
    }

    /// Stores `value` under `key` for `ttl_secs` seconds, replacing any
    /// entry of that key; a full store drops its oldest entry.
    pub fn put(&mut self, key: String, value: String, ttl_secs: u64) -> (r: Option<String>)
        requires
            ttl_secs <= MAX_TTL_SECS,
        ensures
            final(self).capacity() == old(self).capacity(),
            old(self).capacity() > 0 ==> final(self)@.contains_key(key@) && final(self)@[key@] == value@,
            forall|k: Seq<char>| #[trigger] final(self)@.contains_key(k) ==> k == key@ || (
                old(self)@.contains_key(k) && final(self)@[k] == old(self)@[k]),
            r matches Some(v) ==> old(self)@.contains_key(key@) && old(self)@[key@] == v@,
    {
        cache_insert(&mut self.cache, key, value, ttl_secs)
    }

    /// The value stored under `key`, unless absent or expired.
    pub fn get(&self, key: &String) -> (r: Option<String>)
        ensures
            lookup_allows(self@, key@, match r { Some(v) => Some(v@), None => None }),
            !self@.contains_key(key@) ==> r is None,
    {
        cache_get(&self.cache, key)
    }

    /// Removes every entry.
    pub fn clear(&mut self)
        ensures
            final(self)@ == no_entries(),
            final(self).capacity() == old(self).capacity(),
    {
        cache_clear(&mut self.cache)
    }
}

/// After a clear, a lookup of any key finds nothing.
pub proof fn cleared_store_finds_nothing(store: CacheStore, key: Seq<char>, r: Option<Seq<char>>)
    requires
        store@ == no_entries(),
        lookup_allows(store@, key, r),
    ensures
        r is None,
{
}

} // verus!
