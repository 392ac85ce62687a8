use safesync::SimpleLruCache;

#[test]
fn test_basic_functionality() {
    let mut cache = SimpleLruCache::new(3);

    cache.set("key1", "value1");
    cache.set("key2", "value2");

    assert_eq!(cache.get(&"key1"), Some("value1"));
    assert_eq!(cache.get(&"key2"), Some("value2"));
    assert_eq!(cache.get(&"nonexistent"), None);
}

#[test]
fn test_capacity_limit() {
    let mut cache = SimpleLruCache::new(2);

    cache.set("key1", "value1");
    cache.set("key2", "value2");

    // Should have both items
    assert_eq!(cache.get(&"key1"), Some("value1"));
    assert_eq!(cache.get(&"key2"), Some("value2"));

    // Add third item - should evict oldest (key1)
    cache.set("key3", "value3");

    // key1 should be evicted, key2 and key3 should remain
    assert_eq!(cache.get(&"key1"), None);
    assert_eq!(cache.get(&"key2"), Some("value2"));
    assert_eq!(cache.get(&"key3"), Some("value3"));
}

#[test]
fn test_lru_ordering() {
    let mut cache = SimpleLruCache::new(3);

    cache.set("a", 1);
    cache.set("b", 2);
    cache.set("c", 3);

    // Access 'a' to make it most recently used
    cache.get(&"a");

    // Add fourth item - 'b' should be evicted (oldest unused)
    cache.set("d", 4);

    assert_eq!(cache.get(&"a"), Some(1)); // Should still be there
    assert_eq!(cache.get(&"b"), None); // Should be evicted
    assert_eq!(cache.get(&"c"), Some(3)); // Should still be there
    assert_eq!(cache.get(&"d"), Some(4)); // Should be there
}

#[test]
fn test_update_existing_key() {
    let mut cache = SimpleLruCache::new(2);

    cache.set("key1", "value1");
    cache.set("key2", "value2");

    // Update existing key - should not evict anything
    cache.set("key1", "new_value1");

    assert_eq!(cache.get(&"key1"), Some("new_value1"));
    assert_eq!(cache.get(&"key2"), Some("value2"));
}

#[test]
fn test_single_capacity() {
    let mut cache = SimpleLruCache::new(1);

    cache.set("key1", "value1");
    assert_eq!(cache.get(&"key1"), Some("value1"));

    // Add second item - should evict first
    cache.set("key2", "value2");
    assert_eq!(cache.get(&"key1"), None);
    assert_eq!(cache.get(&"key2"), Some("value2"));
}

#[test]
fn test_get_updates_access_time() {
    let mut cache = SimpleLruCache::new(2);

    cache.set("a", 1);
    cache.set("b", 2);

    // Access 'a' to make it more recently used
    cache.get(&"a");

    // Add new item - 'b' should be evicted, not 'a'
    cache.set("c", 3);

    assert_eq!(cache.get(&"a"), Some(1)); // Should still be there
    assert_eq!(cache.get(&"b"), None); // Should be evicted
    assert_eq!(cache.get(&"c"), Some(3)); // Should be there
}

#[test]
fn test_benchmark_pattern() {
    let mut cache = SimpleLruCache::new(5);

    // Simulate benchmark usage pattern
    let keys = ["key1", "key2", "key3", "key4", "key5"];

    // Initial population
    for (i, &key) in keys.iter().enumerate() {
        cache.set(key, i);
    }

    // Repeated access pattern
    for _round in 0..100 {
        for &key in &keys {
            let result = cache.get(&key);
            assert!(result.is_some(), "Key {} should exist", key);
        }
    }
}
