//! The time-bounded response cache: a table from composite key (resource,
//! platform, language) to a serialized payload with an expiration time, and
//! the get-or-compute access pattern that coordinates lookups with fetches.
//!
//! Expiry is purely lazy: an entry's staleness is judged only when it is read,
//! and an expired entry counts as absent without being removed. A store always
//! replaces the whole entry for its key. Concurrent use wraps one cache in a
//! mutual-exclusion guard held only across `lookup` and `store_fetched`, never
//! across the fetch itself, so two callers that miss on the same key may both
//! fetch; the last store then wins.

use vstd::prelude::*;

use crate::model::{Language, PlatformType};
use crate::table::{
    assoc_map, distinct_keys, lemma_assoc_map_absent, lemma_assoc_map_index,
    lemma_assoc_map_push, lemma_assoc_map_update,
};

verus! {

/// A cache key as mathematics: the resource name with the language and
/// platform selectors.
pub type CacheKeyView = (Seq<char>, Language, PlatformType);

/// The cache's contents as mathematics: a map from key to stored payload and
/// expiration time (milliseconds since the Unix epoch).
pub type CacheView = Map<CacheKeyView, (Seq<char>, int)>;

/// An entry is expired exactly when the clock has reached its expiration time.
pub open spec fn spec_expired(expiration_time: int, now: int) -> bool {
    now >= expiration_time
}

/// What a lookup yields on table `m` for key `k` at time `now`: the stored
/// value if the key holds an unexpired entry, nothing otherwise.
pub open spec fn spec_lookup(m: CacheView, k: CacheKeyView, now: int) -> Option<Seq<char>> {
    if m.contains_key(k) && !spec_expired(m[k].1, now) {
        Some(m[k].0)
    } else {
        None
    }
}

/// The table after storing value `v` under `k` at time `now` with time-to-live
/// `ttl`: the whole entry for `k` is replaced.
pub open spec fn spec_store(m: CacheView, k: CacheKeyView, v: Seq<char>, now: int, ttl: int) -> CacheView {
    m.insert(k, (v, now + ttl))
}

/// Why a fetch can fail. Every failure of the compute operation passes through
/// the cache untouched; the cache adds no failures of its own.
#[derive(Debug, Clone, PartialEq, Eq)]
pub enum FetchError {
    /// The request could not be sent, or no response was received.
    Transport(String),
    /// The server answered with a non-success HTTP status.
    Status(u16),
    /// The response body did not match the expected payload shape.
    Decode(String),
}

/// The composite cache key: a resource name together with the language and
/// platform selectors. Equality is structural over all three fields.
#[derive(Debug, PartialEq, Eq, Hash)]
pub struct CacheKey {
    pub key_value: String,
    pub language: Language,
    pub platform: PlatformType,
}

impl View for CacheKey {
    type V = CacheKeyView;

    open spec fn view(&self) -> CacheKeyView {
        (self.key_value@, self.language, self.platform)
    }
}

impl CacheKey {
    /// A key from its three components.
    pub fn new(key_value: String, language: Language, platform: PlatformType) -> (r: Self)
        ensures
            r@ == (key_value@, language, platform),
    {
        Self { key_value, language, platform }
    }
}

/// A cached value with the time at which it goes stale.
#[derive(Debug)]
pub struct CacheEntry {
    pub entry: String,
    expiration_time: i64,
}

impl View for CacheEntry {
    type V = (Seq<char>, int);

    closed spec fn view(&self) -> (Seq<char>, int) {
        (self.entry@, self.expiration_time as int)
    }
}

impl Clone for CacheEntry {
    /// A clone is the same value.
    fn clone(&self) -> (r: Self)
        ensures
            r == *self,
    {
        CacheEntry { entry: self.entry.clone(), expiration_time: self.expiration_time }
    }
}

impl CacheEntry {
    /// An entry from its payload and expiration time.
    pub fn new(entry: String, expiration_time: i64) -> (r: Self)
        ensures
            r@ == (entry@, expiration_time as int),
    {
        Self { entry, expiration_time }
    }

    /// Whether the entry is stale at time `now`.
    pub fn is_expired(&self, now: i64) -> (r: bool)
        ensures
            r == spec_expired(self@.1, now as int),
    {
        now >= self.expiration_time
    }
}

/// Relies on `chrono::Local::now` and `chrono::DateTime::timestamp_millis` for
/// the current wall-clock time as milliseconds since the Unix epoch. Nothing
/// is assumed of the value: callers state what holds whatever time comes back.
#[verifier::external_body]
fn now_millis() -> i64 {
    chrono::Local::now().timestamp_millis()
}

/// The key→entry table of recent fetch results, read through lazy time-based
/// expiry. This is the single-writer core: callers that share it across
/// threads or tasks hold it behind one mutual-exclusion guard, acquired only
/// for the duration of a read or a store.
#[derive(Debug)]
pub struct WarframeCache {
    entries: Vec<(CacheKey, CacheEntry)>,
}

impl View for WarframeCache {
    type V = CacheView;

    closed spec fn view(&self) -> CacheView {
        assoc_map(self.entries@)
    }
}

impl Clone for WarframeCache {
    /// A clone reads as the same table.
    fn clone(&self) -> (r: Self)
        ensures
            r@ == self@,
    {
        proof {
            use_type_invariant(&*self);
        }
        let n = self.entries.len();
        let mut entries: Vec<(CacheKey, CacheEntry)> = Vec::new();
        let mut i: usize = 0;
        while i < n
            invariant
                n == self.entries@.len(),
                0 <= i <= n,
                entries@.len() == i,
                forall|j: int| 0 <= j < i ==> entries@[j] == self.entries@[j],
            decreases n - i,
        {
            let e = &self.entries[i];
            let key = CacheKey {
                key_value: e.0.key_value.clone(),
                language: e.0.language,
                platform: e.0.platform,
            };
            entries.push((key, e.1.clone()));
            i += 1;
        }
        proof {
            assert(entries@ =~= self.entries@);
        }
        WarframeCache { entries }
    }
}

impl Default for WarframeCache {
    /// An empty cache.
    fn default() -> (r: Self)
        ensures
            r@ == CacheView::empty(),
    {
        WarframeCache::new()
    }
}

impl WarframeCache {
    #[verifier::type_invariant]
    spec fn wf(self) -> bool {
        distinct_keys(self.entries@)
    }

    /// An empty cache.
    pub fn new() -> (r: Self)
        ensures
            r@ == CacheView::empty(),
    {
        Self { entries: Vec::new() }
    }

    /// Looks the key up at time `now`: a clone of the stored value if the key
    /// holds an unexpired entry, nothing otherwise. An expired entry counts as
    /// absent but is not removed.
    pub fn lookup(&self, key_value: &str, language: Language, platform: PlatformType, now: i64) -> (r: Option<String>)
        ensures
            ({
                let l = spec_lookup(self@, (key_value@, language, platform), now as int);
                match r {
                    Some(v) => l == Some(v@),
                    None => l is None,
                }
            }),
    {
        proof {
            use_type_invariant(&*self);
        }
        let ghost k: CacheKeyView = (key_value@, language, platform);
        let wanted = key_value.to_owned();
        let n = self.entries.len();
        let mut i: usize = 0;
        while i < n
            invariant
                n == self.entries@.len(),
                0 <= i <= n,
                forall|j: int| 0 <= j < i ==> (#[trigger] self.entries@[j]).0@ != k,
                distinct_keys(self.entries@),
                wanted@ == key_value@,
                k == (key_value@, language, platform),
            decreases n - i,
        {
            let e = &self.entries[i];
            if e.0.key_value == wanted && e.0.language == language && e.0.platform == platform {
                proof {
                    lemma_assoc_map_index(self.entries@, i as int);
                }
                if e.1.is_expired(now) {
                    return None;
                }
                return Some(e.1.entry.clone());
            }
            i += 1;
        }
        proof {
            lemma_assoc_map_absent(self.entries@, k);
        }
        None
    }

    /// Looks the key up at the present wall-clock time. A value comes back
    /// only if the table holds it under this key, live at the time the clock
    /// gave; a key the table does not hold at all yields nothing whatever the
    /// clock says.
    pub fn get(&self, key_value: &str, language: Language, platform: PlatformType) -> (r: Option<String>)
        ensures
            r matches Some(v) ==> exists|t: int|
                spec_lookup(self@, (key_value@, language, platform), t) == Some(v@),
            !self@.contains_key((key_value@, language, platform)) ==> r is None,
    {
        let now = now_millis();
        let r = self.lookup(key_value, language, platform, now);
        proof {
            if r is Some {
                assert(spec_lookup(self@, (key_value@, language, platform), now as int)
                    == Some(r->Some_0@));
            }
        }
        r
    }

    /// Stores `entry` under the composite key with the given expiration time,
    /// replacing any prior entry for that key.
    pub fn insert(
        &mut self,
        key_value: String,
        language: Language,
        platform: PlatformType,
        entry: String,
        expiration_time: i64,
    )
        ensures
            final(self)@ == old(self)@.insert(
                (key_value@, language, platform),
                (entry@, expiration_time as int),
            ),
    {
        proof {
            use_type_invariant(&*self);
        }
        let pair = (
            CacheKey::new(key_value, language, platform),
            CacheEntry::new(entry, expiration_time),
        );
        let mut entries: Vec<(CacheKey, CacheEntry)> = Vec::new();
        core::mem::swap(&mut entries, &mut self.entries);
        let n = entries.len();
        let mut i: usize = 0;
        while i < n
            invariant
                n == entries@.len(),
                0 <= i <= n,
                forall|j: int| 0 <= j < i ==> (#[trigger] entries@[j]).0@ != pair.0@,
                distinct_keys(entries@),
                entries@ == old(self).entries@,
                pair.0@ == (key_value@, language, platform),
                pair.1@ == (entry@, expiration_time as int),
            decreases n - i,
        {
            if entries[i].0.key_value == pair.0.key_value
                && entries[i].0.language == pair.0.language
                && entries[i].0.platform == pair.0.platform {
                proof {
                    lemma_assoc_map_update(entries@, i as int, pair);
                }
                entries[i] = pair;
                self.entries = entries;
                return ;
            }
            i += 1;
        }
        proof {
            lemma_assoc_map_push(entries@, pair);
        }
        entries.push(pair);
        self.entries = entries;
    }

    /// Finishes a get-or-compute miss once the fetch has come back: a
    /// successful fetch is stored under the key with expiration `now + ttl`
    /// and handed on; a failed fetch is handed on unchanged and leaves the
    /// table exactly as it was, so it neither poisons the entry nor blocks a
    /// later attempt.
    pub fn store_fetched(
        &mut self,
        key: CacheKey,
        ttl: i64,
        now: i64,
        fetched: Result<String, FetchError>,
    ) -> (r: Result<String, FetchError>)
        requires
            0 <= ttl,
            now + ttl <= i64::MAX,
        ensures
            r == fetched,
            fetched matches Ok(v) ==> final(self)@ == spec_store(old(self)@, key@, v@, now as int, ttl as int),
            fetched matches Err(_) ==> final(self)@ == old(self)@,
    {
        match fetched {
            Ok(v) => {
                let CacheKey { key_value, language, platform } = key;
                self.insert(key_value, language, platform, v.clone(), now + ttl);
                Ok(v)
            },
            Err(e) => Err(e),
        }
    }

    /// The get-or-compute access pattern at time `now`: if a live entry exists
    /// for the key, its value is returned and the table is left untouched — the
    /// compute operation is not invoked. Otherwise `compute` is invoked exactly
    /// once; on success the value is stored with expiration `now + ttl` and
    /// returned, on failure the failure is returned verbatim and the table is
    /// left untouched.
    pub fn get_or_compute<F: FnOnce() -> Result<String, FetchError>>(
        &mut self,
        key: CacheKey,
        ttl: i64,
        now: i64,
        compute: F,
    ) -> (r: Result<String, FetchError>)
        requires
            call_requires(compute, ()),
            0 <= ttl,
            now + ttl <= i64::MAX,
        ensures
            spec_lookup(old(self)@, key@, now as int) matches Some(v) ==>
                r matches Ok(rv) && rv@ == v && final(self)@ == old(self)@,
            spec_lookup(old(self)@, key@, now as int) is None ==>
                exists|cr: Result<String, FetchError>|
                    #[trigger] call_ensures(compute, (), cr)
                    && r == cr
                    && (match cr {
                        Ok(v) => final(self)@ == spec_store(old(self)@, key@, v@, now as int, ttl as int),
                        Err(_) => final(self)@ == old(self)@,
                    }),
    {
        match self.lookup(key.key_value.as_str(), key.language, key.platform, now) {
            Some(v) => Ok(v),
            None => {
                let fetched = compute();
                self.store_fetched(key, ttl, now, fetched)
            },
        }
    }
}

/// A hit avoids the fetch: once a value is stored at time `t0` with
/// time-to-live `ttl`, any get-or-compute strictly before `t0 + ttl` sees a
/// live entry for the key, so it returns the stored value and leaves the table
/// unchanged without invoking its compute operation.
pub proof fn lemma_hit_avoids_fetch(m: CacheView, k: CacheKeyView, v: Seq<char>, t0: int, ttl: int, t1: int)
    requires
        t1 < t0 + ttl,
    ensures
        spec_lookup(spec_store(m, k, v, t0, ttl), k, t1) == Some(v),
{
}

/// Expiry forces a refetch: at or after `t0 + ttl` the entry stored at `t0`
/// counts as absent, so a get-or-compute misses and invokes its compute
/// operation again.
pub proof fn lemma_expiry_forces_refetch(m: CacheView, k: CacheKeyView, v: Seq<char>, t0: int, ttl: int, t1: int)
    requires
        t1 >= t0 + ttl,
    ensures
        spec_lookup(spec_store(m, k, v, t0, ttl), k, t1) is None,
{
}

/// Keys are independent: a store under one key leaves lookups under every
/// other key exactly as they were, at every time.
pub proof fn lemma_key_independence(m: CacheView, k1: CacheKeyView, k2: CacheKeyView, v: Seq<char>, t0: int, ttl: int, t: int)
    requires
        k1 != k2,
    ensures
        spec_lookup(spec_store(m, k1, v, t0, ttl), k2, t) == spec_lookup(m, k2, t),
{
}

/// A failure leaves no residue: a miss whose fetch fails hands the table on
/// unchanged, so a later call that misses on the same key and whose fetch
/// succeeds with `v` stores `v` and returns it, exactly as if the failed call
/// had never happened.
pub proof fn lemma_failure_non_poisoning(m: CacheView, k: CacheKeyView, v: Seq<char>, t1: int, ttl: int, t2: int)
    requires
        t2 < t1 + ttl,
    ensures
        spec_lookup(spec_store(m, k, v, t1, ttl), k, t2) == Some(v),
{
}

/// The store round-trip: a value stored at time `now` with time-to-live `ttl`
/// is returned exactly by any lookup strictly before `now + ttl`.
pub proof fn lemma_store_round_trip(m: CacheView, k: CacheKeyView, v: Seq<char>, now: int, ttl: int, t: int)
    requires
        now <= t < now + ttl,
    ensures
        spec_lookup(spec_store(m, k, v, now, ttl), k, t) == Some(v),
{
}

} // verus!
