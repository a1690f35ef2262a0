use zentao_client::store::{config_from_text, config_to_text, save_then_load, save_then_load_expired, SessionStore};
use zentao_client::entities::ZentaoConfig;

#[test]
fn save_then_load_returns_the_secret_while_live() {
    let mut store = SessionStore::new();
    let now: u64 = 1_700_000_000;
    let expires = now + 3600;
    store.save("my-secret-token", expires);
    assert_eq!(
        store.load(now),
        Some((String::from("my-secret-token"), expires))
    );
    // Loading does not consume a live record.
    assert!(store.to_text().is_some());
}

#[test]
fn expired_record_loads_as_none_and_disappears() {
    let mut store = SessionStore::new();
    let now: u64 = 1_700_000_000;
    store.save("stale", now);
    assert_eq!(store.load(now), None);
    assert!(store.to_text().is_none());
}

#[test]
fn persistence_round_trip_through_text() {
    let mut store = SessionStore::new();
    let now: u64 = 1_700_000_000;
    store.save("token-值", now + 60);
    let text = store.to_text().unwrap();
    let mut reloaded = SessionStore::from_text(Some(&text));
    assert_eq!(reloaded.load(now), Some((String::from("token-值"), now + 60)));
}

#[test]
fn record_text_matches_the_wire_format() {
    let mut store = SessionStore::new();
    store.save("A", 5);
    // 'A' XOR'd with the fixed key's first byte 'z' is 0x3b, base64 "Ow==".
    assert_eq!(
        store.to_text().unwrap(),
        "{\"token\":\"Ow==\",\"expire_time\":5,\"encrypted\":true}"
    );
}

#[test]
fn absent_or_corrupt_text_is_no_record() {
    let store = SessionStore::from_text(None);
    assert!(store.to_text().is_none());
    let store = SessionStore::from_text(Some("{ not json"));
    assert!(store.to_text().is_none());
    let store = SessionStore::from_text(Some("{\"token\":\"x\"}"));
    assert!(store.to_text().is_none());
}

#[test]
fn undecodable_record_heals_to_none() {
    let mut store = SessionStore::from_text(Some(
        "{\"token\":\"!!!not base64\",\"expire_time\":9999999999,\"encrypted\":true}",
    ));
    assert_eq!(store.load(1_700_000_000), None);
    assert!(store.to_text().is_none());
}

#[test]
fn legacy_clear_record_is_served_as_it_is() {
    let mut store = SessionStore::from_text(Some(
        "{\"token\":\"plain\",\"expire_time\":9999999999,\"encrypted\":false}",
    ));
    assert_eq!(
        store.load(1_700_000_000),
        Some((String::from("plain"), 9_999_999_999))
    );
}

#[test]
fn clear_is_idempotent() {
    let mut store = SessionStore::new();
    store.save("s", u64::MAX);
    store.clear();
    assert!(store.to_text().is_none());
    store.clear();
    assert!(store.to_text().is_none());
}

#[test]
fn config_round_trips_through_text() {
    let c = ZentaoConfig {
        base_url: String::from("http://192.168.181.130:81"),
        account: String::from("admin"),
        password: String::from("p\"w\\d\n中"),
    };
    let text = config_to_text(&c);
    let back = config_from_text(Some(&text)).unwrap();
    assert_eq!(back.base_url, c.base_url);
    assert_eq!(back.account, c.account);
    assert_eq!(back.password, c.password);
}

#[test]
fn config_text_matches_the_wire_format() {
    let c = ZentaoConfig {
        base_url: String::from("http://h"),
        account: String::from("a"),
        password: String::from("p"),
    };
    assert_eq!(
        config_to_text(&c),
        "{\"baseUrl\":\"http://h\",\"account\":\"a\",\"password\":\"p\"}"
    );
}

#[test]
fn corrupt_config_text_is_no_config() {
    assert!(config_from_text(None).is_none());
    assert!(config_from_text(Some("nonsense")).is_none());
    assert!(config_from_text(Some("{\"baseUrl\":\"h\"}")).is_none());
}

#[test]
fn composed_save_load_laws_hold_at_runtime() {
    let mut store = SessionStore::new();
    let now: u64 = 1_700_000_000;
    assert_eq!(
        save_then_load(&mut store, "s3cr3t", now + 1, now),
        Some((String::from("s3cr3t"), now + 1))
    );
    assert_eq!(save_then_load_expired(&mut store, "s3cr3t", now, now), None);
    assert!(store.to_text().is_none());
}
