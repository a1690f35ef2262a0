use zentao_client::cache::{initialize_app_state, is_token_valid, load_config, SessionCache};
use zentao_client::entities::ZentaoConfig;
use zentao_client::store::SessionStore;

fn config(url: &str) -> ZentaoConfig {
    ZentaoConfig {
        base_url: String::from(url),
        account: String::from("admin"),
        password: String::from("pw"),
    }
}

#[test]
fn new_cache_is_invalid() {
    let cache = SessionCache::new();
    assert!(!cache.is_valid(0));
    assert!(!is_token_valid(&cache));
}

#[test]
fn validity_needs_a_token_and_a_future_expiry() {
    let mut cache = SessionCache::new();
    cache.set(String::from("t"), 100);
    assert!(cache.is_valid(99));
    assert!(!cache.is_valid(100));
    assert!(!cache.is_valid(101));
}

#[test]
fn clear_drops_token_and_record_but_keeps_config() {
    let mut cache = SessionCache::new();
    let mut store = SessionStore::new();
    cache.set(String::from("t"), 100);
    cache.set_config(config("http://h"));
    store.save("t", 100);
    cache.clear(&mut store);
    assert!(!cache.is_valid(0));
    assert!(store.to_text().is_none());
    assert!(cache.config.is_some());
}

#[test]
fn initialize_installs_a_live_stored_session() {
    let mut cache = SessionCache::new();
    let mut store = SessionStore::new();
    let now: u64 = 1_700_000_000;
    store.save("stored-secret", now + 500);
    initialize_app_state(&mut cache, &mut store, Some(config("http://h")), now);
    assert!(cache.is_valid(now));
    assert_eq!(cache.token.as_deref(), Some("stored-secret"));
    assert_eq!(cache.token_expire_time, now + 500);
    assert_eq!(cache.config.as_ref().unwrap().base_url, "http://h");
}

#[test]
fn initialize_with_expired_record_leaves_no_session() {
    let mut cache = SessionCache::new();
    let mut store = SessionStore::new();
    let now: u64 = 1_700_000_000;
    store.save("stale", now - 1);
    initialize_app_state(&mut cache, &mut store, None, now);
    assert!(!cache.is_valid(now));
    assert!(store.to_text().is_none());
}

#[test]
fn initialize_without_anything_is_not_an_error() {
    let mut cache = SessionCache::new();
    let mut store = SessionStore::new();
    initialize_app_state(&mut cache, &mut store, None, 0);
    assert!(!cache.is_valid(0));
    assert!(cache.config.is_none());
}

#[test]
fn load_config_prefers_the_file_and_updates_the_cache() {
    let mut cache = SessionCache::new();
    cache.set_config(config("http://old"));
    let r = load_config(&mut cache, Some(config("http://new")));
    assert_eq!(r.unwrap().base_url, "http://new");
    assert_eq!(cache.config.as_ref().unwrap().base_url, "http://new");
}

#[test]
fn load_config_falls_back_to_the_cache() {
    let mut cache = SessionCache::new();
    cache.set_config(config("http://cached"));
    let r = load_config(&mut cache, None);
    assert_eq!(r.unwrap().base_url, "http://cached");
    let mut empty = SessionCache::new();
    assert!(load_config(&mut empty, None).is_none());
}
