use brewdeck::codec::JsonText;
use brewdeck::error::{BrewDeckError, ErrorKind};
use brewdeck::services::cache_entry::{CacheEntry, EntryMeta};
use brewdeck::services::cache_manager::{CacheConfig, CacheManager, CacheStats, EvictionStrategy};

fn config(max_entries: usize, strategy: EvictionStrategy) -> CacheConfig {
    CacheConfig {
        default_ttl: 1_000,
        max_entries,
        cleanup_interval: 60_000,
        strategy,
        persistence_enabled: false,
        persistence_path: None,
    }
}

fn cache(max_entries: usize, strategy: EvictionStrategy) -> CacheManager {
    CacheManager::new(config(max_entries, strategy))
}

fn tags(items: &[&str]) -> Vec<String> {
    items.iter().map(|s| s.to_string()).collect()
}

fn json(n: usize) -> String {
    format!("{{\"n\":{n}}}")
}

#[test]
fn default_config_has_documented_values() {
    let c = CacheConfig::default();
    assert_eq!(c.default_ttl, 300_000);
    assert_eq!(c.max_entries, 1000);
    assert_eq!(c.cleanup_interval, 60_000);
    assert_eq!(c.strategy, EvictionStrategy::LeastRecentlyUsed);
    assert!(c.persistence_enabled);
    assert!(c.persistence_path.is_none());
}

#[test]
fn new_cache_is_empty_and_keeps_its_settings() {
    let c = cache(7, EvictionStrategy::FirstInFirstOut);
    assert_eq!(c.size(), 0);
    assert_eq!(c.config().max_entries, 7);
    assert_eq!(c.config().strategy, EvictionStrategy::FirstInFirstOut);
}

#[test]
fn get_returns_what_was_set() {
    let mut c = cache(10, EvictionStrategy::LeastRecentlyUsed);
    c.set_at("a", "[1,2]".to_string(), None, 100).unwrap();
    assert_eq!(c.get_at("a", 200), Some("[1,2]".to_string()));
    assert_eq!(c.get_at("b", 200), None);
    assert_eq!(c.size(), 1);
}

#[test]
fn set_overwrites_the_entry() {
    let mut c = cache(10, EvictionStrategy::LeastRecentlyUsed);
    c.set_at("a", "1".to_string(), None, 100).unwrap();
    c.set_at("a", "2".to_string(), None, 150).unwrap();
    assert_eq!(c.size(), 1);
    assert_eq!(c.get_at("a", 200), Some("2".to_string()));
}

#[test]
fn entry_expires_once_now_is_past_creation_plus_ttl() {
    let mut c = cache(10, EvictionStrategy::LeastRecentlyUsed);
    c.set_at("a", "1".to_string(), Some(50), 100).unwrap();
    assert_eq!(c.get_at("a", 150), Some("1".to_string()));
    assert_eq!(c.size(), 1);
    assert_eq!(c.get_at("a", 151), None);
    assert_eq!(c.size(), 0);
    assert_eq!(c.get_at("a", 120), None);
}

#[test]
fn default_ttl_applies_when_none_is_given() {
    let mut c = cache(10, EvictionStrategy::LeastRecentlyUsed);
    c.set_at("a", "1".to_string(), None, 0).unwrap();
    assert_eq!(c.get_at("a", 1_000), Some("1".to_string()));
    assert_eq!(c.get_at("a", 1_001), None);
}

#[test]
fn expired_entry_is_removed_by_the_read_without_a_sweep() {
    let mut c = cache(10, EvictionStrategy::LeastRecentlyUsed);
    c.set_at("a", "1".to_string(), Some(10), 0).unwrap();
    c.set_at("b", "2".to_string(), Some(10_000), 0).unwrap();
    assert_eq!(c.size(), 2);
    assert_eq!(c.get_at("a", 11), None);
    assert_eq!(c.size(), 1);
    assert!(!c.invalidate("a"));
}

#[test]
fn huge_ttl_does_not_overflow() {
    let mut c = cache(10, EvictionStrategy::LeastRecentlyUsed);
    c.set_at("a", "1".to_string(), Some(u64::MAX), i64::MAX - 1).unwrap();
    assert_eq!(c.get_at("a", i64::MAX), Some("1".to_string()));
    c.set_at("b", "1".to_string(), Some(0), i64::MIN).unwrap();
    assert_eq!(c.get_at("b", i64::MIN), Some("1".to_string()));
    assert_eq!(c.get_at("b", i64::MIN + 1), None);
}

#[test]
fn reads_are_counted_and_timed() {
    let mut c = cache(10, EvictionStrategy::LeastRecentlyUsed);
    c.set_at("a", "1".to_string(), Some(10_000), 100).unwrap();
    c.get_at("a", 200);
    c.get_at("a", 300);
    c.get_at("a", 250);
    let s = c.stats_at(300);
    assert_eq!(s.total_access_count, 3);
    assert_eq!(s.entry_count, 1);
}

#[test]
fn set_refuses_text_that_is_not_json() {
    let mut c = cache(10, EvictionStrategy::LeastRecentlyUsed);
    c.set_at("a", "1".to_string(), None, 0).unwrap();
    let e = c.set_at("a", "{not json".to_string(), None, 0).unwrap_err();
    assert_eq!(e.kind(), ErrorKind::SerializationError);
    assert!(!e.message().is_empty());
    assert_ne!(e.message(), "{not json");
    assert_eq!(c.get_at("a", 1), Some("1".to_string()));
    let e = c.set_with_tags_at("b", String::new(), None, tags(&["t"]), 0).unwrap_err();
    assert_eq!(e.kind(), ErrorKind::SerializationError);
    assert_eq!(c.size(), 1);
}

#[test]
fn set_never_fails_on_capacity() {
    let mut c = cache(2, EvictionStrategy::TimeToLive);
    for i in 0..5 {
        c.set_at(&format!("k{i}"), json(i), Some(10_000), 0).unwrap();
    }
    assert_eq!(c.size(), 5);
}

#[test]
fn invalidate_reports_whether_the_key_existed() {
    let mut c = cache(10, EvictionStrategy::LeastRecentlyUsed);
    c.set_at("a", "1".to_string(), None, 0).unwrap();
    assert!(c.invalidate("a"));
    assert!(!c.invalidate("a"));
    assert_eq!(c.size(), 0);
}

#[test]
fn invalidate_pattern_hits_substrings_and_globs() {
    let mut c = cache(100, EvictionStrategy::LeastRecentlyUsed);
    for k in ["search_formula_wget", "search_cask_vlc", "packages_formula", "my_search_x", "package_formula_wget"] {
        c.set_at(k, "1".to_string(), None, 0).unwrap();
    }
    assert_eq!(c.invalidate_pattern("search_"), 3);
    assert_eq!(c.size(), 2);
    assert_eq!(c.get_at("packages_formula", 1), Some("1".to_string()));
    assert_eq!(c.invalidate_pattern("pack*wget"), 1);
    assert_eq!(c.size(), 1);
    assert_eq!(c.invalidate_pattern("nothing"), 0);
    assert_eq!(c.invalidate_pattern("*"), 1);
    assert_eq!(c.size(), 0);
}

#[test]
fn empty_pattern_hits_every_key() {
    let mut c = cache(100, EvictionStrategy::LeastRecentlyUsed);
    c.set_at("a", "1".to_string(), None, 0).unwrap();
    c.set_at("", "1".to_string(), None, 0).unwrap();
    assert_eq!(c.invalidate_pattern(""), 2);
}

#[test]
fn invalidate_by_tags_removes_exactly_the_tagged_entries() {
    let mut c = cache(100, EvictionStrategy::LeastRecentlyUsed);
    c.set_with_tags_at("l1", "1".to_string(), None, tags(&["entities", "kind:cask"]), 0).unwrap();
    c.set_with_tags_at("l2", "1".to_string(), None, tags(&["entities", "kind:formula"]), 0).unwrap();
    c.set_with_tags_at("s1", "1".to_string(), None, tags(&["search", "kind:cask"]), 0).unwrap();
    c.set_with_tags_at("d1", "1".to_string(), None, tags(&["kind:casks"]), 0).unwrap();
    c.set_at("bare", "1".to_string(), None, 0).unwrap();
    assert_eq!(c.invalidate_by_tags(&tags(&["kind:cask"])), 2);
    assert_eq!(c.size(), 3);
    assert!(c.get_at("l1", 1).is_none());
    assert!(c.get_at("s1", 1).is_none());
    assert!(c.get_at("l2", 1).is_some());
    assert!(c.get_at("d1", 1).is_some());
    assert!(c.get_at("bare", 1).is_some());
    assert_eq!(c.invalidate_by_tags(&tags(&["none", "entities"])), 1);
    assert_eq!(c.invalidate_by_tags(&Vec::new()), 0);
    assert_eq!(c.size(), 2);
}

#[test]
fn clear_removes_everything() {
    let mut c = cache(100, EvictionStrategy::LeastRecentlyUsed);
    for i in 0..10 {
        c.set_at(&format!("k{i}"), json(i), None, 0).unwrap();
    }
    c.clear();
    assert_eq!(c.size(), 0);
    assert_eq!(c.get_at("k1", 0), None);
}

#[test]
fn sweep_removes_the_expired_entries_only() {
    let mut c = cache(100, EvictionStrategy::LeastRecentlyUsed);
    c.set_at("short", "1".to_string(), Some(10), 0).unwrap();
    c.set_at("edge", "1".to_string(), Some(20), 0).unwrap();
    c.set_at("long", "1".to_string(), Some(1_000), 0).unwrap();
    assert_eq!(c.sweep_expired_at(20), 1);
    assert_eq!(c.size(), 2);
    assert_eq!(c.sweep_expired_at(21), 1);
    assert_eq!(c.sweep_expired_at(21), 0);
    assert_eq!(c.get_at("long", 21), Some("1".to_string()));
}

#[test]
fn lru_eviction_removes_the_ten_oldest_reads() {
    let mut c = cache(100, EvictionStrategy::LeastRecentlyUsed);
    for i in 0..100 {
        c.set_at(&format!("k{i}"), json(i), Some(1_000_000), 0).unwrap();
    }
    // Distinct times of last access, in an order unrelated to the keys.
    for i in 0..100usize {
        let at = 1_000 + ((i * 37) % 100) as i64;
        assert!(c.get_at(&format!("k{i}"), at).is_some());
    }
    assert_eq!(c.size(), 100);
    c.set_at("new", "0".to_string(), Some(1_000_000), 5_000).unwrap();
    assert_eq!(c.size(), 91);
    for i in 0..100usize {
        let at = (i * 37) % 100;
        let present = c.get_at(&format!("k{i}"), 6_000).is_some();
        assert_eq!(present, at >= 10, "key k{i} read at {at}");
    }
    assert!(c.get_at("new", 6_000).is_some());
}

#[test]
fn lfu_eviction_removes_the_least_read() {
    let mut c = cache(20, EvictionStrategy::LeastFrequentlyUsed);
    for i in 0..20usize {
        c.set_at(&format!("k{i}"), json(i), Some(1_000_000), 0).unwrap();
        for _ in 0..i {
            c.get_at(&format!("k{i}"), 1);
        }
    }
    c.set_at("new", "0".to_string(), Some(1_000_000), 2).unwrap();
    assert_eq!(c.size(), 19);
    assert!(c.get_at("k0", 3).is_none());
    assert!(c.get_at("k1", 3).is_none());
    for i in 2..20 {
        assert!(c.get_at(&format!("k{i}"), 3).is_some());
    }
}

#[test]
fn fifo_eviction_removes_the_first_made() {
    let mut c = cache(10, EvictionStrategy::FirstInFirstOut);
    for i in 0..10usize {
        c.set_at(&format!("k{i}"), json(i), Some(1_000_000), 100 - i as i64).unwrap();
    }
    for i in 0..10 {
        c.get_at(&format!("k{i}"), 200 + i as i64);
    }
    c.set_at("new", "0".to_string(), Some(1_000_000), 300).unwrap();
    assert_eq!(c.size(), 10);
    assert!(c.get_at("k9", 301).is_none());
    assert!(c.get_at("k8", 301).is_some());
}

#[test]
fn ttl_eviction_removes_only_expired_entries() {
    let mut c = cache(3, EvictionStrategy::TimeToLive);
    c.set_at("a", "1".to_string(), Some(10), 0).unwrap();
    c.set_at("b", "1".to_string(), Some(10), 0).unwrap();
    c.set_at("c", "1".to_string(), Some(1_000), 0).unwrap();
    c.set_at("d", "1".to_string(), Some(1_000), 5).unwrap();
    assert_eq!(c.size(), 4);
    c.set_at("e", "1".to_string(), Some(1_000), 11).unwrap();
    assert_eq!(c.size(), 3);
    assert!(c.get_at("c", 12).is_some());
    assert!(c.get_at("d", 12).is_some());
    assert!(c.get_at("e", 12).is_some());
}

#[test]
fn small_capacity_evicts_at_least_one() {
    let mut c = cache(3, EvictionStrategy::FirstInFirstOut);
    for i in 0..8usize {
        c.set_at(&format!("k{i}"), json(i), Some(1_000_000), i as i64).unwrap();
        assert!(c.size() <= 3);
    }
    assert_eq!(c.size(), 3);
    assert!(c.get_at("k7", 10).is_some());
    assert!(c.get_at("k0", 10).is_none());
    let mut zero = cache(0, EvictionStrategy::LeastRecentlyUsed);
    zero.set_at("a", "1".to_string(), None, 0).unwrap();
    zero.set_at("b", "1".to_string(), None, 1).unwrap();
    assert_eq!(zero.size(), 1);
}

#[test]
fn eviction_below_capacity_does_not_run() {
    let mut c = cache(100, EvictionStrategy::LeastRecentlyUsed);
    for i in 0..99usize {
        c.set_at(&format!("k{i}"), json(i), None, 0).unwrap();
    }
    assert_eq!(c.size(), 99);
    c.set_at("k99", json(99), None, 0).unwrap();
    assert_eq!(c.size(), 100);
}

#[test]
fn stats_count_expired_entries_and_mean_age() {
    let mut c = cache(100, EvictionStrategy::LeastRecentlyUsed);
    assert_eq!(
        c.stats_at(5),
        CacheStats { entry_count: 0, expired_count: 0, total_access_count: 0, average_age_ms: 0 }
    );
    c.set_at("a", "1".to_string(), Some(1_000), 0).unwrap();
    c.set_at("b", "1".to_string(), Some(10_000), 2_000).unwrap();
    c.set_at("c", "1".to_string(), Some(10_000), 3_500).unwrap();
    c.get_at("b", 2_500);
    c.get_at("b", 2_600);
    c.get_at("c", 3_600);
    let s = c.stats_at(5_000);
    assert_eq!(s.entry_count, 3);
    assert_eq!(s.expired_count, 1);
    assert_eq!(s.total_access_count, 3);
    // Ages in whole seconds: 5, 3 and 1; the mean of 9000 ms over three entries.
    assert_eq!(s.average_age_ms, 3_000);
    let early = c.stats_at(-10);
    assert_eq!(early.average_age_ms, 0);
    assert_eq!(early.expired_count, 0);
}

#[test]
fn mean_age_keeps_fractions_of_a_second() {
    let mut c = cache(100, EvictionStrategy::LeastRecentlyUsed);
    c.set_at("a", "1".to_string(), Some(100_000), 0).unwrap();
    c.set_at("b", "1".to_string(), Some(100_000), 1_000).unwrap();
    // Ages 2 s and 1 s: the mean is 1500 ms.
    assert_eq!(c.stats_at(2_999).average_age_ms, 1_500);
}

#[test]
fn refresh_replaces_the_entry_on_success_only() {
    let mut c = cache(100, EvictionStrategy::LeastRecentlyUsed);
    c.set_with_tags_at("a", "1".to_string(), Some(10), tags(&["t"]), 0).unwrap();
    assert!(!c.complete_refresh_at("a", Err(BrewDeckError::NetworkError("x".into())), 5));
    assert_eq!(c.get_at("a", 6), Some("1".to_string()));
    assert!(!c.complete_refresh_at("a", Ok("nope".to_string()), 5));
    assert_eq!(c.get_at("a", 6), Some("1".to_string()));
    assert!(c.complete_refresh_at("a", Ok("2".to_string()), 8));
    // The fresh entry has the default time to live and no tags.
    assert_eq!(c.get_at("a", 1_008), Some("2".to_string()));
    assert_eq!(c.invalidate_by_tags(&tags(&["t"])), 0);
    assert_eq!(c.get_at("a", 1_009), None);
    assert!(c.complete_refresh_at("new", Ok("3".to_string()), 8));
    assert_eq!(c.size(), 1);
}

#[test]
fn refresh_does_not_evict() {
    let mut c = cache(1, EvictionStrategy::LeastRecentlyUsed);
    c.set_at("a", "1".to_string(), None, 0).unwrap();
    assert!(c.complete_refresh_at("b", Ok("2".to_string()), 1));
    assert_eq!(c.size(), 2);
}

#[test]
fn clock_reading_operations_work_together() {
    let mut c = CacheManager::new(CacheConfig::default());
    c.set("a", "{\"x\":1}".to_string(), None).unwrap();
    c.set_with_tags("b", "2".to_string(), Some(60_000), tags(&["t"])).unwrap();
    assert_eq!(c.get("a"), Some("{\"x\":1}".to_string()));
    assert_eq!(c.get("b"), Some("2".to_string()));
    let s = c.stats();
    assert_eq!(s.entry_count, 2);
    assert_eq!(s.expired_count, 0);
    assert_eq!(s.total_access_count, 2);
    assert_eq!(c.sweep_expired(), 0);
    assert!(c.complete_refresh("a", Ok("3".to_string())));
    assert_eq!(c.get("a"), Some("3".to_string()));
    c.set("gone", "1".to_string(), Some(0)).unwrap();
    let start = std::time::Instant::now();
    while start.elapsed() < std::time::Duration::from_millis(5) {}
    assert_eq!(c.get("gone"), None);
}

#[test]
fn entry_is_made_at_the_current_time() {
    let before = std::time::SystemTime::now()
        .duration_since(std::time::UNIX_EPOCH)
        .unwrap()
        .as_millis() as i64;
    let e = CacheEntry::new("v".to_string(), 5);
    let after = std::time::SystemTime::now()
        .duration_since(std::time::UNIX_EPOCH)
        .unwrap()
        .as_millis() as i64;
    assert!(before - 1 <= e.created_at && e.created_at <= after + 1);
    assert_eq!(e.last_accessed, e.created_at);
    assert_eq!(e.access_count, 0);
    assert_eq!(e.ttl, 5);
    assert!(e.tags.is_empty());
    assert!(!CacheEntry::new(1u8, 60_000).is_expired());
    assert_eq!(CacheEntry::new(1u8, 60_000).age(), 0);
    let mut touched = CacheEntry::new("v".to_string(), 5);
    touched.access();
    assert_eq!(touched.access_count, 1);
    assert!(touched.last_accessed >= touched.created_at);
}

#[test]
fn entry_bookkeeping_at_given_times() {
    let mut e = CacheEntry::new_at("v".to_string(), 100, 1_000).with_tags(tags(&["x"]));
    assert_eq!(e.tags, tags(&["x"]));
    assert!(!e.is_expired_at(1_100));
    assert!(e.is_expired_at(1_101));
    assert_eq!(e.age_at(999), 0);
    assert_eq!(e.age_at(1_999), 0);
    assert_eq!(e.age_at(2_000), 1);
    assert_eq!(e.age_at(4_500), 3);
    e.access_at(2_000);
    assert_eq!((e.access_count, e.last_accessed), (1, 2_000));
    e.access_at(1_500);
    assert_eq!((e.access_count, e.last_accessed), (2, 2_000));
    e.access_count = u64::MAX;
    e.access_at(3_000);
    assert_eq!((e.access_count, e.last_accessed), (u64::MAX, 3_000));
    assert_eq!(
        e.meta(),
        EntryMeta { created_at: 1_000, ttl: 100, access_count: u64::MAX, last_accessed: 3_000 }
    );
    assert_eq!(e.copy_tags(), tags(&["x"]));
    assert!(e.meta().is_expired_at(1_101));
    assert_eq!(e.meta().age(4_500), 3);
}

#[test]
fn json_texts_are_checked() {
    for good in ["1", " [1, 2] ", "{\"a\": null}", "\"x\"", "true"] {
        let json = JsonText::parse(good.to_string()).unwrap();
        assert_eq!(json.as_str(), good);
        assert_eq!(json.into_string(), good);
    }
    for bad in ["", "{", "[1,]", "nope", "1 2", "{\"a\"}"] {
        match JsonText::parse(bad.to_string()) {
            Ok(_) => panic!("{bad:?} is not JSON"),
            Err(e) => {
                assert_eq!(e.kind(), ErrorKind::SerializationError);
                assert!(!e.message().is_empty());
                assert_ne!(e.message(), bad);
            }
        }
    }
    let deep = "[".repeat(200) + &"]".repeat(200);
    assert!(JsonText::parse(deep).is_err());
}

#[test]
fn put_stores_a_checked_value() {
    let mut c = cache(2, EvictionStrategy::FirstInFirstOut);
    let value = JsonText::parse("[1]".to_string()).unwrap();
    c.put_at("a", value, Some(5), tags(&["t"]), 10);
    assert_eq!(c.get_at("a", 15), Some("[1]".to_string()));
    assert_eq!(c.get_at("a", 16), None);
    for (i, at) in [(0, 20), (1, 21), (2, 22)] {
        let value = JsonText::parse(json(i)).unwrap();
        c.put_at(&format!("k{i}"), value, None, Vec::new(), at);
    }
    assert_eq!(c.size(), 2);
    assert!(c.get_at("k0", 23).is_none());
}
