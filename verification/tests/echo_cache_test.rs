use fns_cli::echo_cache::{EchoCache, DEFAULT_TTL, DELETED_MARKER};
use std::time::Duration;

#[test]
fn test_new_creates_empty_cache() {
    let cache = EchoCache::new();
    assert!(cache.is_empty());
    assert_eq!(cache.len(), 0);
}

#[test]
fn test_add_outbound() {
    let mut cache = EchoCache::new();
    cache.add_outbound("test.md", "hash123");
    assert_eq!(cache.len(), 1);
    assert!(cache.should_skip("test.md", "hash123"));
}

#[test]
fn test_add_inbound() {
    let mut cache = EchoCache::new();
    cache.add_inbound("test.md", "hash456");
    assert_eq!(cache.len(), 1);
    assert!(cache.should_skip("test.md", "hash456"));
}

#[test]
fn test_should_skip_returns_false_for_unknown_hash() {
    let mut cache = EchoCache::new();
    cache.add_outbound("test.md", "hash123");
    assert!(!cache.should_skip("test.md", "unknown_hash"));
}

#[test]
fn test_should_skip_returns_false_for_unknown_path() {
    let mut cache = EchoCache::new();
    cache.add_outbound("test.md", "hash123");
    assert!(!cache.should_skip("other.md", "hash123"));
}

#[test]
fn test_mark_deleted() {
    let mut cache = EchoCache::new();
    cache.mark_deleted("test.md");
    assert!(cache.is_deleted("test.md"));
}

#[test]
fn test_is_deleted_returns_false_for_unknown_path() {
    let cache = EchoCache::new();
    assert!(!cache.is_deleted("test.md"));
}

#[test]
fn test_remove() {
    let mut cache = EchoCache::new();
    cache.add_outbound("test.md", "hash123");
    assert!(cache.should_skip("test.md", "hash123"));

    cache.remove("test.md", "hash123");
    assert!(!cache.should_skip("test.md", "hash123"));
    assert!(cache.is_empty());
}

#[test]
fn test_remove_one_of_multiple_hashes() {
    let mut cache = EchoCache::new();
    cache.add_outbound("test.md", "hash1");
    cache.add_outbound("test.md", "hash2");

    cache.remove("test.md", "hash1");
    assert!(!cache.should_skip("test.md", "hash1"));
    assert!(cache.should_skip("test.md", "hash2"));
    assert_eq!(cache.len(), 1);
}

#[test]
fn test_clear_path() {
    let mut cache = EchoCache::new();
    cache.add_outbound("test.md", "hash1");
    cache.add_outbound("test.md", "hash2");
    cache.mark_deleted("test.md");

    cache.clear_path("test.md");
    assert!(!cache.should_skip("test.md", "hash1"));
    assert!(!cache.should_skip("test.md", "hash2"));
    assert!(!cache.is_deleted("test.md"));
}

#[test]
fn test_multiple_hashes_per_path() {
    let mut cache = EchoCache::new();
    cache.add_inbound("test.md", "hashA");
    cache.add_outbound("test.md", "hashB");

    assert!(cache.should_skip("test.md", "hashA"));
    assert!(cache.should_skip("test.md", "hashB"));
}

#[test]
fn test_revert_scenario() {
    let mut cache = EchoCache::new();
    cache.add_inbound("note.md", "hashA");
    cache.add_outbound("note.md", "hashB");
}

#[test]
fn test_deleted_marker_constant() {
    assert_eq!(DELETED_MARKER, "__deleted__");
}

#[test]
fn test_default_ttl() {
    assert_eq!(Duration::from_secs(DEFAULT_TTL), Duration::from_secs(30));
}

#[test]
fn echo_skip_window_at_fixed_times() {
    let mut cache = EchoCache::with_ttl(Duration::from_millis(10));
    cache.add_outbound_at("test.md", "hash123", 1_000_000);
    assert!(cache.should_skip_at("test.md", "hash123", 1_000_000));
    assert!(cache.should_skip_at("test.md", "hash123", 10_999_999));
    assert!(!cache.should_skip_at("test.md", "hash123", 11_000_000));
    // a reading before the stamp counts as no time
    assert!(cache.should_skip_at("test.md", "hash123", 0));
}

#[test]
fn echo_cleanup_keeps_exactly_the_fresh_entries() {
    let mut cache = EchoCache::with_ttl(Duration::from_millis(10));
    cache.add_outbound_at("old.md", "h1", 0);
    cache.add_outbound_at("new.md", "h2", 8_000_000);
    cache.cleanup_expired_at(12_000_000);
    assert_eq!(cache.len(), 1);
    assert!(!cache.should_skip_at("old.md", "h1", 12_000_000));
    assert!(cache.should_skip_at("new.md", "h2", 12_000_000));
    cache.cleanup_expired_at(18_000_000);
    assert!(cache.is_empty());
}

#[test]
fn echo_deleted_mark_expires() {
    let mut cache = EchoCache::with_ttl(Duration::from_secs(1));
    cache.mark_deleted_at("gone.md", 5);
    assert!(cache.is_deleted_at("gone.md", 5));
    assert!(!cache.is_deleted_at("gone.md", 1_000_000_005));
}

#[test]
fn echo_remove_of_absent_hash_keeps_entry() {
    let mut cache = EchoCache::new();
    cache.add_outbound("a.md", "h1");
    cache.remove("a.md", "zzz");
    assert_eq!(cache.len(), 1);
    assert!(cache.should_skip("a.md", "h1"));
    cache.remove("b.md", "h1");
    assert_eq!(cache.len(), 1);
}

#[test]
fn echo_default_is_new() {
    let cache = EchoCache::default();
    assert!(cache.is_empty());
}

#[test]
fn echo_cleanup_changes_no_answer_at_its_reading() {
    let mut cache = EchoCache::with_ttl(Duration::from_millis(10));
    cache.add_outbound_at("old.md", "h1", 0);
    cache.add_inbound_at("new.md", "h2", 8_000_000);
    cache.mark_deleted_at("gone.md", 9_000_000);
    let now = 12_000_000;
    let queries = [("old.md", "h1"), ("new.md", "h2"), ("new.md", "h3"), ("none.md", "h1")];
    let before: Vec<bool> = queries.iter().map(|(p, h)| cache.should_skip_at(p, h, now)).collect();
    let deleted_before = cache.is_deleted_at("gone.md", now);
    cache.cleanup_expired_at(now);
    let after: Vec<bool> = queries.iter().map(|(p, h)| cache.should_skip_at(p, h, now)).collect();
    assert_eq!(before, after);
    assert_eq!(deleted_before, cache.is_deleted_at("gone.md", now));
    assert_eq!(cache.len(), 2);
}
