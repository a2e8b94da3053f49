use std::collections::HashMap;

use halo_cache::entry::Entry;
use halo_cache::store::{Cache, LocalCache};

/// Burn wall-clock time without suspending the thread.
fn busy_wait_millis(ms: u64) {
    let start = std::time::Instant::now();
    let d = std::time::Duration::from_millis(ms);
    while start.elapsed() < d {
        std::hint::spin_loop();
    }
}

#[test]
fn lib_test_local_cache() {
    let mut cache: LocalCache<String> = LocalCache::new();
    cache.set(
        "key".to_string(),
        Entry::Value("value".to_string()),
        Some(10_000),
    );
    assert_eq!(cache.get("key"), Some(Entry::Value("value".to_string())));
}

#[test]
fn mod_test_local_cache() {
    let mut cache: LocalCache<String> = LocalCache::new();
    cache.set("key".to_string(), Entry::Value("value".to_string()), None);
    assert_eq!(cache.get("key"), Some(Entry::Value("value".to_string())));
    cache.set(
        "key".to_string(),
        Entry::Value("value".to_string()),
        Some(1_000),
    );
    assert_eq!(cache.get("key"), Some(Entry::Value("value".to_string())));
}

#[test]
fn test_local_cache_none_ttl() {
    let mut cache: LocalCache<String> = LocalCache::new();
    cache.set("key".to_string(), Entry::Value("value".to_string()), None);
    busy_wait_millis(1_000);
    assert_eq!(cache.get("key"), Some(Entry::Value("value".to_string())));
}

#[test]
fn test_local_cache_ttl() {
    let mut cache: LocalCache<String> = LocalCache::new();
    cache.set(
        "key".to_string(),
        Entry::Value("value".to_string()),
        Some(1_000),
    );
    busy_wait_millis(1_200);
    assert_ne!(cache.get("key"), Some(Entry::Value("value".to_string())));
}

#[test]
fn set_then_get_returns_value() {
    let mut cache: LocalCache<String> = LocalCache::new();
    cache.set("k".to_string(), Entry::Value("v".to_string()), None);
    assert_eq!(cache.get("k"), Some(Entry::Value("v".to_string())));
}

#[test]
fn get_absent_key_is_none() {
    let mut cache: LocalCache<String> = LocalCache::new();
    assert_eq!(cache.get("missing"), None);
    assert_eq!(cache.get(""), None);
}

#[test]
fn set_get_at_fixed_instants() {
    let mut cache: LocalCache<String> = LocalCache::new();
    cache.set_at("k".to_string(), Entry::Value("v".to_string()), Some(5), 100);
    assert_eq!(
        cache.get_at("k", 105),
        Some(Entry::Value("v".to_string()))
    );
    assert_eq!(cache.get_at("k", 106), None);
    // the expired entry was removed by the read that observed it, so it
    // stays gone even for a reader whose clock has moved back
    assert_eq!(cache.get_at("k", 100), None);
}

#[test]
fn zero_ttl_expires_on_the_next_instant() {
    let mut cache: LocalCache<String> = LocalCache::new();
    cache.set_at("k".to_string(), Entry::Value("v".to_string()), Some(0), 50);
    assert_eq!(cache.get_at("k", 50), Some(Entry::Value("v".to_string())));
    assert_eq!(cache.get_at("k", 51), None);
}

#[test]
fn overwrite_discards_old_value_and_ttl() {
    let mut cache: LocalCache<String> = LocalCache::new();
    cache.set("k".to_string(), Entry::Value("first".to_string()), Some(1));
    cache.set("k".to_string(), Entry::Value("second".to_string()), None);
    busy_wait_millis(50);
    // the first write's 1 ms time-to-live left no residual effect
    assert_eq!(cache.get("k"), Some(Entry::Value("second".to_string())));
}

#[test]
fn overwrite_at_fixed_instants() {
    let mut cache: LocalCache<String> = LocalCache::new();
    cache.set_at("k".to_string(), Entry::Value("a".to_string()), None, 10);
    cache.set_at("k".to_string(), Entry::Value("b".to_string()), Some(100), 20);
    assert_eq!(cache.get_at("k", 60), Some(Entry::Value("b".to_string())));
}

#[test]
fn del_present_then_absent() {
    let mut cache: LocalCache<String> = LocalCache::new();
    cache.set("k".to_string(), Entry::Value("v".to_string()), None);
    cache.del("k");
    assert_eq!(cache.get("k"), None);
    // deleting an absent key is a quiet no-op
    cache.del("k");
    cache.del("never-set");
    assert_eq!(cache.get("k"), None);
}

#[test]
fn clear_empties_every_key() {
    let mut cache: LocalCache<String> = LocalCache::new();
    cache.set("a".to_string(), Entry::Value("1".to_string()), None);
    cache.set("b".to_string(), Entry::Value("2".to_string()), Some(60_000));
    cache.set("c".to_string(), Entry::List(vec!["x".to_string()]), None);
    cache.clear();
    assert_eq!(cache.get("a"), None);
    assert_eq!(cache.get("b"), None);
    assert_eq!(cache.get("c"), None);
}

#[test]
fn session_scenario() {
    let mut cache: LocalCache<String> = LocalCache::new();
    cache.set(
        "session".to_string(),
        Entry::Value("u123".to_string()),
        Some(1_000),
    );
    assert_eq!(
        cache.get("session"),
        Some(Entry::Value("u123".to_string()))
    );
    busy_wait_millis(1_100);
    assert_eq!(cache.get("session"), None);
}

#[test]
fn tags_scenario() {
    let mut cache: LocalCache<String> = LocalCache::new();
    cache.set(
        "tags".to_string(),
        Entry::List(vec!["a".to_string(), "b".to_string()]),
        None,
    );
    for _ in 0..5 {
        assert_eq!(
            cache.get("tags"),
            Some(Entry::List(vec!["a".to_string(), "b".to_string()]))
        );
        busy_wait_millis(20);
    }
}

#[test]
fn table_entries_round_trip() {
    let mut cache: LocalCache<String> = LocalCache::new();
    let mut table = HashMap::new();
    table.insert("one".to_string(), "1".to_string());
    table.insert("two".to_string(), "2".to_string());
    cache.set("lookup".to_string(), Entry::Table(table.clone()), None);
    assert_eq!(cache.get("lookup"), Some(Entry::Table(table)));
}

#[test]
fn distinct_keys_do_not_contaminate() {
    let mut cache: LocalCache<String> = LocalCache::new();
    let n = 8;
    for i in 0..n {
        cache.set(format!("key-{i}"), Entry::Value(format!("value-{i}")), None);
    }
    for i in 0..n {
        assert_eq!(
            cache.get(&format!("key-{i}")),
            Some(Entry::Value(format!("value-{i}")))
        );
    }
}

#[test]
fn default_store_is_empty() {
    let mut cache: LocalCache<String> = LocalCache::default();
    assert_eq!(cache.get("anything"), None);
    cache.set("k".to_string(), Entry::Value("v".to_string()), None);
    assert_eq!(cache.get("k"), Some(Entry::Value("v".to_string())));
}
