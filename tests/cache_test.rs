use lazyjira::cache::Cache;

#[test]
fn test_cache_insert_and_get() {
    let mut cache = Cache::new(60_000);
    cache.insert("key1", "value1");

    assert_eq!(cache.get(&"key1"), Some(&"value1"));
    assert_eq!(cache.get(&"key2"), None);
}

#[test]
fn test_cache_expiration() {
    let mut cache = Cache::new(100);
    cache.insert_with_ttl_at("key1", "value1", 100, 0);

    assert_eq!(cache.get_at(&"key1", 0), Some(&"value1"));
    assert_eq!(cache.get_at(&"key1", 150), None);
}

#[test]
fn test_cache_cleanup() {
    let mut cache = Cache::new(50);
    cache.insert_with_ttl_at("key1", "value1", 50, 0);
    cache.insert_with_ttl_at("key2", "value2", 200, 0);

    cache.cleanup_expired_at(100);

    assert_eq!(cache.get_at(&"key1", 100), None);
    assert_eq!(cache.get_at(&"key2", 100), Some(&"value2"));
    assert_eq!(cache.data.len(), 1);
}

#[test]
fn remove_and_clear() {
    let mut cache = Cache::new(1000);
    cache.insert_with_ttl_at(1u32, "a".to_string(), 10, 0);
    cache.insert_with_ttl_at(2u32, "b".to_string(), 10, 0);
    assert_eq!(cache.remove(&1), Some("a".to_string()));
    assert_eq!(cache.remove(&1), None);
    cache.clear();
    assert!(cache.data.is_empty());
    cache.insert_with_ttl_at(3u32, "c".to_string(), u64::MAX, 5);
    assert_eq!(cache.get_at(&3, u64::MAX - 1), Some(&"c".to_string()));
}
