use sonos_state::ids::SpeakerId;
use sonos_state::watch_cache::{CacheLookup, WatchCache, WatchKey, DEFAULT_CLEANUP_TIMEOUT_MS};

fn key(speaker: &str, property: &'static str) -> WatchKey {
    WatchKey { speaker_id: SpeakerId::new(speaker), property_key: property }
}

/// A lookup that misses makes the caller create the watch and cache it.
fn get_or_watch(cache: &mut WatchCache, k: WatchKey, now: u64, created: &mut usize) -> CacheLookup {
    let r = cache.lookup(&k, now);
    if r == CacheLookup::Miss {
        *created += 1;
        cache.insert(k, now);
    }
    r
}

#[test]
fn test_cache_miss_creates_watch() {
    let mut cache = WatchCache::new(5000);
    let mut created = 0;
    let r = get_or_watch(&mut cache, key("test-speaker", "volume"), 0, &mut created);
    assert_eq!(r, CacheLookup::Miss);
    assert_eq!(created, 1);
    assert!(cache.has_watch(&SpeakerId::new("test-speaker"), "volume"));
}

#[test]
fn test_cache_hit_returns_instantly() {
    let mut cache = WatchCache::new(5000);
    let mut created = 0;
    get_or_watch(&mut cache, key("test-speaker", "volume"), 0, &mut created);
    assert_eq!(created, 1);
    let r = get_or_watch(&mut cache, key("test-speaker", "volume"), 1, &mut created);
    assert_eq!(r, CacheLookup::Hit(None));
    assert_eq!(created, 1);
}

#[test]
fn test_different_properties_have_separate_cache_entries() {
    let mut cache = WatchCache::new(5000);
    let mut created = 0;
    get_or_watch(&mut cache, key("test-speaker", "volume"), 0, &mut created);
    get_or_watch(&mut cache, key("test-speaker", "mute"), 0, &mut created);

    let speaker_id = SpeakerId::new("test-speaker");
    assert!(cache.has_watch(&speaker_id, "volume"));
    assert!(cache.has_watch(&speaker_id, "mute"));

    let stats = cache.stats();
    assert_eq!(stats.total_watches, 2);
    assert_eq!(stats.speakers_cached, 1);
}

#[test]
fn test_cleanup_removes_watches_after_timeout() {
    let mut cache = WatchCache::new(100);
    let mut created = 0;
    get_or_watch(&mut cache, key("test-speaker", "volume"), 0, &mut created);
    let speaker_id = SpeakerId::new("test-speaker");
    assert!(cache.has_watch(&speaker_id, "volume"));

    cache.attach_property_cleanup(&key("test-speaker", "volume"), 1);
    assert_eq!(cache.stats().pending_cleanups, 1);

    // The timer fires.
    assert!(cache.expire_property(&key("test-speaker", "volume")));
    assert!(!cache.has_watch(&speaker_id, "volume"));
}

#[test]
fn test_cleanup_canceled_on_reuse() {
    let mut cache = WatchCache::new(200);
    let mut created = 0;
    get_or_watch(&mut cache, key("test-speaker", "volume"), 0, &mut created);
    cache.attach_property_cleanup(&key("test-speaker", "volume"), 7);

    // Used again before the timer fires: the pending timer is handed back to
    // be cancelled, and the watch stays.
    let r = get_or_watch(&mut cache, key("test-speaker", "volume"), 50, &mut created);
    assert_eq!(r, CacheLookup::Hit(Some(7)));
    assert_eq!(created, 1);
    assert_eq!(cache.stats().pending_cleanups, 0);
    assert!(cache.has_watch(&SpeakerId::new("test-speaker"), "volume"));
}

#[test]
fn test_clear_removes_all_watches() {
    let mut cache = WatchCache::new(5000);
    let mut created = 0;
    for name in ["speaker-0", "speaker-1", "speaker-2"] {
        get_or_watch(&mut cache, key(name, "volume"), 0, &mut created);
    }
    assert_eq!(cache.stats().total_watches, 3);

    cache.attach_property_cleanup(&key("speaker-1", "volume"), 11);
    let timers = cache.clear();
    assert_eq!(timers, vec![11]);
    assert_eq!(cache.stats().total_watches, 0);
}

#[test]
fn speaker_cleanup_covers_only_that_speaker() {
    let mut cache = WatchCache::with_default_timeout();
    assert_eq!(cache.cleanup_timeout_ms(), DEFAULT_CLEANUP_TIMEOUT_MS);
    let mut created = 0;
    get_or_watch(&mut cache, key("a", "volume"), 0, &mut created);
    get_or_watch(&mut cache, key("a", "mute"), 0, &mut created);
    get_or_watch(&mut cache, key("b", "volume"), 0, &mut created);

    cache.attach_speaker_cleanup(&SpeakerId::new("a"), 3);
    assert_eq!(cache.stats().pending_cleanups, 2);

    assert_eq!(cache.expire_speaker(&SpeakerId::new("a")), 2);
    assert!(!cache.has_watch(&SpeakerId::new("a"), "volume"));
    assert!(cache.has_watch(&SpeakerId::new("b"), "volume"));
    assert_eq!(cache.stats().speakers_cached, 1);
}
