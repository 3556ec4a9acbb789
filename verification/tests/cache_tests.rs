use warframe_status::cache::{CacheEntry, CacheKey, FetchError, WarframeCache};
use warframe_status::model::{Language, PlatformType};

fn key(resource: &str, language: Language, platform: PlatformType) -> CacheKey {
    CacheKey::new(String::from(resource), language, platform)
}

#[test]
fn lookup_on_empty_cache_misses() {
    let cache = WarframeCache::new();
    assert_eq!(
        cache.lookup("alerts", Language::English, PlatformType::PC, 0),
        None
    );
}

#[test]
fn store_round_trip_before_expiry() {
    let mut cache = WarframeCache::new();
    cache.insert(
        String::from("alerts"),
        Language::English,
        PlatformType::PC,
        String::from("payload"),
        100,
    );
    assert_eq!(
        cache.lookup("alerts", Language::English, PlatformType::PC, 0),
        Some(String::from("payload"))
    );
    assert_eq!(
        cache.lookup("alerts", Language::English, PlatformType::PC, 99),
        Some(String::from("payload"))
    );
}

#[test]
fn expired_entry_counts_as_absent() {
    let mut cache = WarframeCache::new();
    cache.insert(
        String::from("alerts"),
        Language::English,
        PlatformType::PC,
        String::from("payload"),
        100,
    );
    assert_eq!(
        cache.lookup("alerts", Language::English, PlatformType::PC, 100),
        None
    );
    assert_eq!(
        cache.lookup("alerts", Language::English, PlatformType::PC, 150),
        None
    );
}

#[test]
fn keys_are_independent() {
    let mut cache = WarframeCache::new();
    cache.insert(
        String::from("alerts"),
        Language::English,
        PlatformType::PC,
        String::from("payload"),
        100,
    );
    assert_eq!(
        cache.lookup("events", Language::English, PlatformType::PC, 0),
        None
    );
    assert_eq!(
        cache.lookup("alerts", Language::German, PlatformType::PC, 0),
        None
    );
    assert_eq!(
        cache.lookup("alerts", Language::English, PlatformType::PS4, 0),
        None
    );
    assert_eq!(
        cache.lookup("alerts", Language::English, PlatformType::PC, 0),
        Some(String::from("payload"))
    );
}

#[test]
fn insert_replaces_whole_entry() {
    let mut cache = WarframeCache::new();
    cache.insert(
        String::from("alerts"),
        Language::English,
        PlatformType::PC,
        String::from("first"),
        100,
    );
    cache.insert(
        String::from("alerts"),
        Language::English,
        PlatformType::PC,
        String::from("second"),
        200,
    );
    assert_eq!(
        cache.lookup("alerts", Language::English, PlatformType::PC, 150),
        Some(String::from("second"))
    );
}

#[test]
fn get_or_compute_scenario() {
    // TTL = 100 ms; key = ("alerts", PC, English).
    let mut cache = WarframeCache::new();
    let ttl: i64 = 100;

    // First call at t = 0: a miss, so compute runs and "A" is stored.
    let r = cache.get_or_compute(
        key("alerts", Language::English, PlatformType::PC),
        ttl,
        0,
        || Ok(String::from("A")),
    );
    assert_eq!(r, Ok(String::from("A")));

    // Second call at t = 50, within the TTL: a hit; compute is not invoked.
    let mut called = false;
    let r = cache.get_or_compute(
        key("alerts", Language::English, PlatformType::PC),
        ttl,
        50,
        || {
            called = true;
            Ok(String::from("X"))
        },
    );
    assert!(!called);
    assert_eq!(r, Ok(String::from("A")));

    // Third call at t = 150, after the TTL: compute runs again and "B" wins.
    let mut called = false;
    let r = cache.get_or_compute(
        key("alerts", Language::English, PlatformType::PC),
        ttl,
        150,
        || {
            called = true;
            Ok(String::from("B"))
        },
    );
    assert!(called);
    assert_eq!(r, Ok(String::from("B")));
    assert_eq!(
        cache.lookup("alerts", Language::English, PlatformType::PC, 200),
        Some(String::from("B"))
    );
}

#[test]
fn failure_leaves_no_residue() {
    let mut cache = WarframeCache::new();
    let r = cache.get_or_compute(
        key("alerts", Language::English, PlatformType::PC),
        100,
        0,
        || Err(FetchError::Transport(String::from("connection refused"))),
    );
    assert_eq!(
        r,
        Err(FetchError::Transport(String::from("connection refused")))
    );
    assert_eq!(
        cache.lookup("alerts", Language::English, PlatformType::PC, 0),
        None
    );

    // A fresh compute that succeeds is stored as if the failure never happened.
    let r = cache.get_or_compute(
        key("alerts", Language::English, PlatformType::PC),
        100,
        10,
        || Ok(String::from("fresh")),
    );
    assert_eq!(r, Ok(String::from("fresh")));
    assert_eq!(
        cache.lookup("alerts", Language::English, PlatformType::PC, 50),
        Some(String::from("fresh"))
    );
}

#[test]
fn failure_does_not_touch_prior_entry() {
    let mut cache = WarframeCache::new();
    cache.insert(
        String::from("alerts"),
        Language::English,
        PlatformType::PC,
        String::from("stale"),
        100,
    );
    // At t = 100 the entry is expired, so this is a miss; the failed fetch
    // leaves the expired entry in place without extending it.
    let r = cache.get_or_compute(
        key("alerts", Language::English, PlatformType::PC),
        100,
        100,
        || Err(FetchError::Status(503)),
    );
    assert_eq!(r, Err(FetchError::Status(503)));
    assert_eq!(
        cache.lookup("alerts", Language::English, PlatformType::PC, 99),
        Some(String::from("stale"))
    );
    assert_eq!(
        cache.lookup("alerts", Language::English, PlatformType::PC, 100),
        None
    );
}

#[test]
fn racing_misses_last_store_wins() {
    // Two callers miss on the same key at the same time; both fetch, both
    // store. The table must end holding one of the two computed pairs whole —
    // here the later store — not a merged state.
    let mut cache = WarframeCache::new();
    let k = ("alerts", Language::English, PlatformType::PC);

    let first = cache.lookup(k.0, k.1, k.2, 0);
    let second = cache.lookup(k.0, k.1, k.2, 0);
    assert_eq!(first, None);
    assert_eq!(second, None);

    let r1 = cache.store_fetched(key(k.0, k.1, k.2), 100, 0, Ok(String::from("one")));
    let r2 = cache.store_fetched(key(k.0, k.1, k.2), 100, 0, Ok(String::from("two")));
    assert_eq!(r1, Ok(String::from("one")));
    assert_eq!(r2, Ok(String::from("two")));

    assert_eq!(cache.lookup(k.0, k.1, k.2, 50), Some(String::from("two")));
    assert_eq!(cache.lookup(k.0, k.1, k.2, 100), None);
}

#[test]
fn store_fetched_passes_every_error_through() {
    let mut cache = WarframeCache::new();
    let errors = vec![
        FetchError::Transport(String::from("timed out")),
        FetchError::Status(404),
        FetchError::Decode(String::from("unexpected end of input")),
    ];
    for e in errors {
        let r = cache.store_fetched(
            key("sortie", Language::English, PlatformType::PC),
            100,
            0,
            Err(e.clone()),
        );
        assert_eq!(r, Err(e));
    }
    assert_eq!(
        cache.lookup("sortie", Language::English, PlatformType::PC, 0),
        None
    );
}

#[test]
fn get_reads_the_clock() {
    let mut cache = WarframeCache::new();
    assert_eq!(cache.get("alerts", Language::English, PlatformType::PC), None);
    cache.insert(
        String::from("alerts"),
        Language::English,
        PlatformType::PC,
        String::from("payload"),
        i64::MAX,
    );
    assert_eq!(
        cache.get("alerts", Language::English, PlatformType::PC),
        Some(String::from("payload"))
    );
}

#[test]
fn entry_expiry_boundary() {
    let e = CacheEntry::new(String::from("payload"), 100);
    assert!(!e.is_expired(99));
    assert!(e.is_expired(100));
    assert!(e.is_expired(101));
    assert_eq!(e.entry, "payload");
}

#[test]
fn cache_key_holds_its_parts() {
    let k = key("alerts", Language::German, PlatformType::Switch);
    assert_eq!(k.key_value, "alerts");
    assert_eq!(k.language, Language::German);
    assert_eq!(k.platform, PlatformType::Switch);
}

#[test]
fn cache_clone_reads_the_same() {
    let mut cache = WarframeCache::new();
    cache.insert(
        String::from("alerts"),
        Language::English,
        PlatformType::PC,
        String::from("payload"),
        100,
    );
    let copy = cache.clone();
    assert_eq!(
        copy.lookup("alerts", Language::English, PlatformType::PC, 0),
        Some(String::from("payload"))
    );
    assert_eq!(
        copy.lookup("alerts", Language::German, PlatformType::PC, 0),
        None
    );
}

#[test]
fn default_cache_is_empty() {
    let cache = WarframeCache::default();
    assert_eq!(cache.lookup("alerts", Language::English, PlatformType::PC, 0), None);
}
