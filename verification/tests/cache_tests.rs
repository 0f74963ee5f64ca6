//! The signing-key cache: hits within the time-to-live, refresh on a
//! miss, and key rotation.

use authcore::keys::{KeyCache, SigningKey, KEY_TTL_SECS};

fn key(kid: &str) -> SigningKey {
    SigningKey {
        key_id: kid.to_string(),
        modulus: format!("modulus-of-{}", kid),
        exponent: "AQAB".to_string(),
    }
}

#[test]
fn an_empty_cache_answers_nothing() {
    let cache = KeyCache::new();
    assert!(cache.lookup(&"kid-1".to_string(), 0).is_none());
}

#[test]
fn a_fetched_key_is_served_until_the_ttl_elapses() {
    let mut cache = KeyCache::new();
    cache.install(vec![key("kid-1"), key("kid-2")], 1000);
    // Served out of the cache right up to the last valid second.
    let hit = cache.lookup(&"kid-2".to_string(), 1000 + KEY_TTL_SECS - 1).unwrap();
    assert_eq!(hit.key_id, "kid-2");
    assert_eq!(hit.modulus, "modulus-of-kid-2");
    // Once the time-to-live has elapsed, the entry no longer answers.
    assert!(cache.lookup(&"kid-2".to_string(), 1000 + KEY_TTL_SECS).is_none());
}

#[test]
fn a_key_id_absent_from_a_valid_entry_misses() {
    let mut cache = KeyCache::new();
    cache.install(vec![key("kid-1")], 1000);
    assert!(cache.lookup(&"kid-3".to_string(), 1001).is_none());
}

#[test]
fn a_refresh_replaces_the_entry_wholesale() {
    let mut cache = KeyCache::new();
    cache.install(vec![key("kid-1")], 1000);
    // The provider rotated its keys; the refresh brings the new set.
    cache.install(vec![key("kid-3")], 1100);
    let hit = cache.lookup(&"kid-3".to_string(), 1100).unwrap();
    assert_eq!(hit.key_id, "kid-3");
    // The rotated-out key is unreachable, though its old entry would
    // still have been valid now.
    assert!(cache.lookup(&"kid-1".to_string(), 1100).is_none());
}

#[test]
fn the_first_key_with_a_duplicated_id_wins() {
    let mut cache = KeyCache::new();
    let mut second = key("kid-1");
    second.exponent = "AQAC".to_string();
    cache.install(vec![key("kid-1"), second], 1000);
    let hit = cache.lookup(&"kid-1".to_string(), 1000).unwrap();
    assert_eq!(hit.exponent, "AQAB");
}
