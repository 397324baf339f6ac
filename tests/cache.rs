use gyroflow::cache::{CacheKey, ManagerCache, DEFAULT_CAPACITY};
use gyroflow::number::Double;
use gyroflow::params::ParameterSnapshot;

fn key(project: &str) -> CacheKey {
    CacheKey::new(project.as_bytes().to_vec(), b"instance".to_vec(), 1920, 1080, b"BGRA8Unorm".to_vec(), false)
}

fn params() -> ParameterSnapshot {
    let z = Double::from_bits(0);
    ParameterSnapshot::new(z, z, z, z, z, z, z, z, false)
}

#[test]
fn get_or_create_twice_hits() {
    let mut cache = ManagerCache::new(DEFAULT_CAPACITY);
    let mut constructions = 0;
    let first = cache.get_or_create(&key("a"), &params());
    if first.created {
        constructions += 1;
    }
    let second = cache.get_or_create(&key("a"), &params());
    if second.created {
        constructions += 1;
    }
    assert_eq!(first.serial, second.serial);
    assert_eq!(constructions, 1);
    assert_eq!(second.evicted, None);
    assert_eq!(cache.len(), 1);
}

#[test]
fn keys_differ_by_any_field() {
    let mut cache = ManagerCache::new(DEFAULT_CAPACITY);
    let base = key("a");
    let mut other_flag = key("a");
    other_flag.disable_stretch = true;
    let mut other_instance = key("a");
    other_instance.instance = b"instance2".to_vec();
    let mut other_width = key("a");
    other_width.width = 1280;
    let mut serials = Vec::new();
    for k in [base, other_flag, other_instance, other_width] {
        let l = cache.get_or_create(&k, &params());
        assert!(l.created);
        serials.push(l.serial);
    }
    assert_eq!(serials, vec![0, 1, 2, 3]);
    assert_eq!(cache.len(), 4);
}

#[test]
fn full_cache_evicts_least_recent() {
    let mut cache = ManagerCache::new(2);
    let a = cache.get_or_create(&key("a"), &params());
    let b = cache.get_or_create(&key("b"), &params());
    // Touch `a`, so that `b` becomes the least recently used.
    assert!(!cache.get_or_create(&key("a"), &params()).created);
    let c = cache.get_or_create(&key("c"), &params());
    assert!(c.created);
    assert_eq!(c.evicted, Some(b.serial));
    assert_eq!(cache.len(), 2);
    let again_a = cache.get_or_create(&key("a"), &params());
    assert!(!again_a.created);
    assert_eq!(again_a.serial, a.serial);
    let again_b = cache.get_or_create(&key("b"), &params());
    assert!(again_b.created);
    assert_ne!(again_b.serial, b.serial);
    assert_eq!(again_b.evicted, Some(c.serial));
}

#[test]
fn clear_returns_prior_count() {
    let mut cache = ManagerCache::new(3);
    cache.get_or_create(&key("a"), &params());
    cache.get_or_create(&key("b"), &params());
    assert_eq!(cache.clear(), 2);
    assert_eq!(cache.len(), 0);
    assert_eq!(cache.clear(), 0);
    let l = cache.get_or_create(&key("a"), &params());
    assert!(l.created);
    assert_eq!(l.serial, 2);
}

#[test]
fn serials_last() {
    let cache = ManagerCache::new(1);
    assert!(cache.serial_room());
}
