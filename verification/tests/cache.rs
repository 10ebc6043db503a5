use driver_pool::link_cache::{CacheDecision, LinkCache, SignedLinkCache};
use driver_pool::meta::FileDownloadSource;

const TTL_MS: i64 = 3_600_000;
const LOCK_MS: u64 = 30_000;

#[test]
fn example_scenario_miss_hit_then_expiry() {
    // source {file_id: "f1", provider: "onedrive", object_key: "abc"}, ttl one hour
    let source = FileDownloadSource {
        file_id: "f1".to_string(),
        provider_type: "onedrive".to_string(),
        provider_index: "0".to_string(),
        object_key: "abc".to_string(),
    };
    let fp = source.get_cache_uuid();
    let mut cache = LinkCache::new();

    // first call at t=0: cold miss, this caller must fetch
    let d0 = cache.get_or_begin(&fp, 0, TTL_MS, LOCK_MS);
    assert_eq!(d0, CacheDecision::Fetch);
    cache.complete_fetch(&fp, "https://signed.example/u1".to_string(), 0);

    // second call half way through the ttl: hit, same URL, no fetch
    let d1 = cache.get_or_begin(&fp, 1_800_000, TTL_MS, LOCK_MS);
    assert_eq!(d1, CacheDecision::Hit("https://signed.example/u1".to_string()));

    // third call past the ttl: expired, a new fetch begins
    let d2 = cache.get_or_begin(&fp, 4_000_000, TTL_MS, LOCK_MS);
    assert_eq!(d2, CacheDecision::Fetch);
}

#[test]
fn concurrent_misses_collapse_into_one_fetch() {
    let mut cache = LinkCache::new();
    let first = cache.get_or_begin("fp-a", 100, TTL_MS, LOCK_MS);
    assert_eq!(first, CacheDecision::Fetch);
    // every racing caller before the lock expires is told a fetch is in flight
    let second = cache.get_or_begin("fp-a", 150, TTL_MS, LOCK_MS);
    assert_eq!(second, CacheDecision::InFlight);
    let third = cache.get_or_begin("fp-a", 30_099, TTL_MS, LOCK_MS);
    assert_eq!(third, CacheDecision::InFlight);
    // the winner stores the URL; every caller then reads that same URL
    cache.complete_fetch("fp-a", "https://signed.example/one".to_string(), 200);
    let a = cache.get_or_begin("fp-a", 300, TTL_MS, LOCK_MS);
    let b = cache.get_or_begin("fp-a", 400, TTL_MS, LOCK_MS);
    assert_eq!(a, CacheDecision::Hit("https://signed.example/one".to_string()));
    assert_eq!(b, a);
}

#[test]
fn stale_lock_heals_itself() {
    let mut cache = LinkCache::new();
    assert_eq!(cache.get_or_begin("fp-b", 0, TTL_MS, LOCK_MS), CacheDecision::Fetch);
    // the fetcher crashed: no complete_fetch, no fail_fetch; once the lock
    // time has passed the entry counts as unlocked and a new fetch begins
    let after = cache.get_or_begin("fp-b", (LOCK_MS as i64) + 1, TTL_MS, LOCK_MS);
    assert_eq!(after, CacheDecision::Fetch);
}

#[test]
fn failed_fetch_clears_the_lock_for_retry() {
    let mut cache = LinkCache::new();
    assert_eq!(cache.get_or_begin("fp-c", 0, TTL_MS, LOCK_MS), CacheDecision::Fetch);
    cache.fail_fetch("fp-c");
    // no URL was stored, so the next caller may retry at once
    assert_eq!(cache.get_or_begin("fp-c", 1, TTL_MS, LOCK_MS), CacheDecision::Fetch);
}

#[test]
fn invalidate_removes_the_entry() {
    let mut cache = LinkCache::new();
    assert_eq!(cache.get_or_begin("fp-d", 0, TTL_MS, LOCK_MS), CacheDecision::Fetch);
    cache.complete_fetch("fp-d", "https://signed.example/gone".to_string(), 0);
    cache.invalidate("fp-d");
    assert_eq!(cache.get_or_begin("fp-d", 1, TTL_MS, LOCK_MS), CacheDecision::Fetch);
}

#[test]
fn entries_for_different_fingerprints_are_independent() {
    let mut cache = LinkCache::new();
    assert_eq!(cache.get_or_begin("fp-e", 0, TTL_MS, LOCK_MS), CacheDecision::Fetch);
    cache.complete_fetch("fp-e", "https://signed.example/e".to_string(), 0);
    // a different fingerprint is a cold miss of its own
    assert_eq!(cache.get_or_begin("fp-f", 1, TTL_MS, LOCK_MS), CacheDecision::Fetch);
    // and the first entry is untouched by it
    let hit = cache.get_or_begin("fp-e", 2, TTL_MS, LOCK_MS);
    assert_eq!(hit, CacheDecision::Hit("https://signed.example/e".to_string()));
}

#[test]
fn entry_new_lock_unlock() {
    let e = SignedLinkCache::new_at("https://signed.example/x".to_string(), 7);
    assert_eq!(e.link, "https://signed.example/x");
    assert_eq!(e.created_at, 7);
    assert_eq!(e.lock_until, None);
    let locked = e.lock_at(7, 500);
    assert_eq!(locked.lock_until, Some(507));
    assert_eq!(locked.created_at, 7);
    let unlocked = locked.unlock();
    assert_eq!(unlocked.lock_until, None);
    assert_eq!(unlocked.link, "https://signed.example/x");
}

#[test]
fn lock_saturates_at_the_largest_time() {
    let e = SignedLinkCache::new_at("u".to_string(), 0);
    let locked = e.lock_at(i64::MAX - 10, 500);
    assert_eq!(locked.lock_until, Some(i64::MAX));
}

#[test]
fn get_uuid_matches_the_source_fingerprint() {
    let source = FileDownloadSource {
        file_id: "f1".to_string(),
        provider_type: "onedrive".to_string(),
        provider_index: "0".to_string(),
        object_key: "abc".to_string(),
    };
    let expected = source.get_cache_uuid();
    assert_eq!(SignedLinkCache::get_uuid(source), expected);
}
