use vstd::hash_map::StringHashMap;
use vstd::prelude::*;

verus! {

/// How long a value read from the config table is served from memory, in seconds.
pub const DEFAULT_TTL_SECONDS: u64 = 60;

/// Nanoseconds per second of the cache's clock.
pub const CACHE_NANOS_PER_SECOND: u64 = 1_000_000_000;

/// A config value held in memory until `expires_at` (nanoseconds of a monotonic clock).
struct CachedValue {
    value: String,
    expires_at: u64,
}

/// What the cache holds: for each key, the value and the instant it expires at,
/// and how long a stored value stays fresh.
pub struct CacheState {
    pub entries: Map<Seq<char>, (Seq<char>, int)>,
    pub ttl: int,
}

impl CacheState {
    /// The value served for `key` at `now`: the stored one while it has not expired.
    pub open spec fn lookup(self, key: Seq<char>, now: int) -> Option<Seq<char>> {
        if self.entries.contains_key(key) && self.entries[key].1 > now {
            Some(self.entries[key].0)
        } else {
            None
        }
    }

    /// The cache after `value` is stored for `key` at `now`.
    pub open spec fn stored(self, key: Seq<char>, value: Seq<char>, now: int) -> CacheState {
        CacheState { entries: self.entries.insert(key, (value, now + self.ttl)), ttl: self.ttl }
    }

    /// The cache after `key` is dropped.
    pub open spec fn forgotten(self, key: Seq<char>) -> CacheState {
        CacheState { entries: self.entries.remove(key), ttl: self.ttl }
    }
}

/// A time-limited in-memory copy of config values, so that repeated reads of
/// the same key within the time to live do not reach the database.
///
/// The clock is the caller's: every operation takes the current instant in
/// nanoseconds of a monotonic clock.
pub struct ConfigCacher {
    cache: StringHashMap<CachedValue>,
    ttl: u64,
}

impl View for ConfigCacher {
    type V = CacheState;

    closed spec fn view(&self) -> CacheState {
        CacheState {
            entries: self.cache@.map_values(|e: CachedValue| (e.value@, e.expires_at as int)),
            ttl: self.ttl as int,
        }
    }
}

impl ConfigCacher {
    /// A stored value stays fresh for some time.
    #[verifier::type_invariant]
    spec fn ttl_is_positive(self) -> bool {
        self.ttl > 0
    }

    /// An empty cache whose values stay fresh for `DEFAULT_TTL_SECONDS`.
    pub fn new() -> (cacher: ConfigCacher)
        ensures
            cacher@.entries == Map::<Seq<char>, (Seq<char>, int)>::empty(),
            cacher@.ttl == DEFAULT_TTL_SECONDS * CACHE_NANOS_PER_SECOND,
    {
        let cacher = ConfigCacher { cache: StringHashMap::new(), ttl: DEFAULT_TTL_SECONDS * CACHE_NANOS_PER_SECOND };
        assert(cacher@.entries =~= Map::<Seq<char>, (Seq<char>, int)>::empty());
        cacher
    }

    /// How long a stored value stays fresh, in nanoseconds.
    pub fn ttl_nanos(&self) -> (ttl: u64)
        ensures
            ttl == self@.ttl,
            ttl > 0,
    {
        proof {
            use_type_invariant(self);
        }
        self.ttl
    }

    /// The value stored for `key` if it has not expired at `now`.
    pub fn get_cached(&self, key: &str, now: u64) -> (result: Option<String>)
        ensures
            match result {
                Some(v) => self@.lookup(key@, now as int) == Some(v@),
                None => self@.lookup(key@, now as int) is None,
            },
            self@.ttl > 0,
    {
        proof {
            use_type_invariant(self);
        }
        match self.cache.get(key) {
            Some(cached) => {
                if cached.expires_at > now {
                    Some(cached.value.clone())
                } else {
                    None
                }
            },
            None => None,
        }
    }

    /// Stores `value` for `key`, fresh until `now` plus the time to live.
    pub fn set_cached(&mut self, key: String, value: String, now: u64)
        requires
            now + old(self)@.ttl <= u64::MAX,
        ensures
            final(self)@ == old(self)@.stored(key@, value@, now as int),
            final(self)@.lookup(key@, now as int) == Some(value@),
    {
        proof {
            use_type_invariant(&*self);
        }
        let expires_at = now + self.ttl;
        let ghost k = key@;
        let ghost v = value@;
        let mut cache = StringHashMap::new();
        std::mem::swap(&mut cache, &mut self.cache);
        cache.insert(key, CachedValue { value, expires_at });
        self.cache = cache;
        assert(self@.entries =~= old(self)@.entries.insert(k, (v, now + old(self)@.ttl)));
    }

    /// Drops whatever is stored for `key`.
    pub fn invalidate(&mut self, key: &str)
        ensures
            final(self)@ == old(self)@.forgotten(key@),
    {
        proof {
            use_type_invariant(&*self);
        }
        let mut cache = StringHashMap::new();
        std::mem::swap(&mut cache, &mut self.cache);
        cache.remove(key);
        self.cache = cache;
        assert(self@.entries =~= old(self)@.entries.remove(key@));
    }

    /// Stores and returns the value read for a config parameter: the stored
    /// row's value when there is one, else the parameter's default.
    pub fn remember_param(&mut self, key: String, row_value: Option<String>, default_value: String, now: u64) -> (value: String)
        requires
            now + old(self)@.ttl <= u64::MAX,
        ensures
            value@ == match row_value {
                Some(v) => v@,
                None => default_value@,
            },
            final(self)@ == old(self)@.stored(key@, value@, now as int),
            final(self)@.lookup(key@, now as int) == Some(value@),
    {
        let value = match row_value {
            Some(v) => v,
            None => default_value,
        };
        self.set_cached(key, value.clone(), now);
        value
    }
}

/// A value stored at `stored_at` is served for its key until the time to live has passed.
pub proof fn lemma_read_after_write(cache: CacheState, key: Seq<char>, value: Seq<char>, stored_at: int, now: int)
    requires
        stored_at <= now < stored_at + cache.ttl,
    ensures
        cache.stored(key, value, stored_at).lookup(key, now) == Some(value),
{
}

/// Once the time to live has passed, a stored value is no longer served.
pub proof fn lemma_write_expires(cache: CacheState, key: Seq<char>, value: Seq<char>, stored_at: int, now: int)
    requires
        now >= stored_at + cache.ttl,
    ensures
        cache.stored(key, value, stored_at).lookup(key, now) is None,
{
}

/// After a key is invalidated nothing is served for it until it is stored again.
pub proof fn lemma_invalidate_clears(cache: CacheState, key: Seq<char>, now: int)
    ensures
        cache.forgotten(key).lookup(key, now) is None,
{
}

/// Storing or invalidating one key does not change what is served for another.
pub proof fn lemma_other_keys_unchanged(
    cache: CacheState,
    key: Seq<char>,
    other: Seq<char>,
    value: Seq<char>,
    stored_at: int,
    now: int,
)
    requires
        key != other,
    ensures
        cache.stored(key, value, stored_at).lookup(other, now) == cache.lookup(other, now),
        cache.forgotten(key).lookup(other, now) == cache.lookup(other, now),
{
}

} // verus!
