use gemcore::cache::{ConfigCacher, CACHE_NANOS_PER_SECOND, DEFAULT_TTL_SECONDS};

const SECOND: u64 = CACHE_NANOS_PER_SECOND;

#[test]
fn test_a_new_cache_is_empty_with_a_minute_to_live() {
    let cacher = ConfigCacher::new();
    assert_eq!(cacher.ttl_nanos(), DEFAULT_TTL_SECONDS * SECOND);
    assert_eq!(cacher.ttl_nanos(), 60_000_000_000);
    assert_eq!(cacher.get_cached("fees", 0), None);
}

#[test]
fn test_a_stored_value_is_served_until_it_expires() {
    let mut cacher = ConfigCacher::new();
    cacher.set_cached("fees".to_string(), "10".to_string(), 5 * SECOND);
    assert_eq!(cacher.get_cached("fees", 5 * SECOND), Some("10".to_string()));
    assert_eq!(cacher.get_cached("fees", 64 * SECOND), Some("10".to_string()));
    assert_eq!(cacher.get_cached("fees", 65 * SECOND - 1), Some("10".to_string()));
    assert_eq!(cacher.get_cached("fees", 65 * SECOND), None);
    assert_eq!(cacher.get_cached("other", 5 * SECOND), None);
}

#[test]
fn test_a_new_write_replaces_the_value_and_its_expiry() {
    let mut cacher = ConfigCacher::new();
    cacher.set_cached("fees".to_string(), "10".to_string(), 0);
    cacher.set_cached("fees".to_string(), "20".to_string(), 30 * SECOND);
    assert_eq!(cacher.get_cached("fees", 70 * SECOND), Some("20".to_string()));
}

#[test]
fn test_invalidate_drops_only_its_key() {
    let mut cacher = ConfigCacher::new();
    cacher.set_cached("a".to_string(), "1".to_string(), 0);
    cacher.set_cached("b".to_string(), "2".to_string(), 0);
    cacher.invalidate("a");
    assert_eq!(cacher.get_cached("a", 1), None);
    assert_eq!(cacher.get_cached("b", 1), Some("2".to_string()));
    cacher.invalidate("missing");
    assert_eq!(cacher.get_cached("b", 1), Some("2".to_string()));
}

#[test]
fn test_remember_param_prefers_the_stored_row() {
    let mut cacher = ConfigCacher::new();
    let stored = cacher.remember_param("limit".to_string(), Some("7".to_string()), "3".to_string(), 0);
    assert_eq!(stored, "7");
    assert_eq!(cacher.get_cached("limit", 1), Some("7".to_string()));
    let default = cacher.remember_param("other".to_string(), None, "3".to_string(), 0);
    assert_eq!(default, "3");
    assert_eq!(cacher.get_cached("other", 1), Some("3".to_string()));
}

#[test]
fn test_a_remembered_default_is_served_at_once() {
    let mut cacher = ConfigCacher::new();
    let value = cacher.remember_param("missing".to_string(), None, "fallback".to_string(), 123);
    assert_eq!(cacher.get_cached("missing", 123), Some(value));
}
