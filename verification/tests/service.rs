use shloss::auth::service::{
    login_service, record_service_token, validate_service_token, validate_service_token_at,
    ServiceKeyStore,
};
use shloss::config::{ClientConfig, ServiceKey};
use shloss::crypto::{hash_secret, GeneratedToken};
use shloss::time::{Timestamp, MICROS_PER_DAY, SERVICE_TOKEN_TTL};

#[test]
fn test_keys_open_numbered_vaults() {
    let store = ServiceKeyStore::with_test_keys(&["shloss_a", "shloss_b"]);
    assert_eq!(store.verify_key("shloss_a"), Some(0));
    assert_eq!(store.verify_key("shloss_b"), Some(1));
    assert_eq!(store.verify_key("shloss_c"), None);
    assert!(store.service_tokens().is_empty());
}

#[test]
fn store_from_config_maps_hashes_to_vaults() {
    let config = ClientConfig {
        keys: vec![
            ServiceKey { name: "mail".into(), hash: hash_secret("shloss_mail"), vault_id: 7 },
            ServiceKey { name: "bar".into(), hash: hash_secret("shloss_bar"), vault_id: 9 },
        ],
    };
    let store = ServiceKeyStore::from_config(&config);
    assert_eq!(store.verify_key("shloss_mail"), Some(7));
    assert_eq!(store.verify_key("shloss_bar"), Some(9));
    assert_eq!(store.verify_key("shloss_other"), None);
}

#[test]
fn later_config_entry_with_same_hash_wins() {
    let config = ClientConfig {
        keys: vec![
            ServiceKey { name: "a".into(), hash: hash_secret("k"), vault_id: 1 },
            ServiceKey { name: "b".into(), hash: hash_secret("k"), vault_id: 2 },
        ],
    };
    let store = ServiceKeyStore::from_config(&config);
    assert_eq!(store.verify_key("k"), Some(2));
}

#[test]
fn service_login_with_valid_key_issues_usable_token() {
    let mut store = ServiceKeyStore::with_test_keys(&["shloss_testkey", "shloss_other"]);
    let token = login_service(&mut store, "shloss_other").unwrap().expect("known key");
    assert_eq!(token.hash, hash_secret(&token.raw));
    assert_eq!(store.service_tokens().len(), 1);
    let t = &store.service_tokens()[0];
    assert_eq!(t.vault_id, 1);
    assert_eq!(t.expires_at.micros - t.created_at.micros, SERVICE_TOKEN_TTL);
    assert_eq!(validate_service_token(&store, &token.raw), Some(1));
}

#[test]
fn service_login_with_unknown_key_changes_nothing() {
    let mut store = ServiceKeyStore::with_test_keys(&["shloss_testkey"]);
    assert!(login_service(&mut store, "shloss_wrongkey").unwrap().is_none());
    assert!(store.service_tokens().is_empty());
}

#[test]
fn service_token_expires_after_one_day() {
    let mut store = ServiceKeyStore::with_test_keys(&["shloss_testkey"]);
    let token = GeneratedToken { raw: "tok".into(), hash: hash_secret("tok") };
    let created = Timestamp { micros: 1_000 };
    record_service_token(&mut store, &token, 0, created);
    assert_eq!(store.service_tokens()[0].expires_at, Timestamp { micros: 1_000 + MICROS_PER_DAY });
    assert_eq!(validate_service_token_at(&store, "tok", created), Some(0));
    let last_valid = Timestamp { micros: 1_000 + MICROS_PER_DAY - 1 };
    assert_eq!(validate_service_token_at(&store, "tok", last_valid), Some(0));
    let expiry = Timestamp { micros: 1_000 + MICROS_PER_DAY };
    assert_eq!(validate_service_token_at(&store, "tok", expiry), None);
}

#[test]
fn expired_service_token_is_refused() {
    let mut store = ServiceKeyStore::new();
    let token = GeneratedToken { raw: "expiredtoken".into(), hash: hash_secret("expiredtoken") };
    let created_at = Timestamp { micros: chrono::Utc::now().timestamp_micros() - 2 * MICROS_PER_DAY };
    record_service_token(&mut store, &token, 0, created_at);
    assert_eq!(validate_service_token(&store, "expiredtoken"), None);
}

#[test]
fn unknown_service_token_is_refused() {
    let mut store = ServiceKeyStore::with_test_keys(&["shloss_testkey"]);
    login_service(&mut store, "shloss_testkey").unwrap().unwrap();
    assert_eq!(validate_service_token(&store, "not-a-token"), None);
}

#[test]
fn first_unexpired_token_decides_the_vault() {
    let mut store = ServiceKeyStore::new();
    let token = GeneratedToken { raw: "same".into(), hash: hash_secret("same") };
    record_service_token(&mut store, &token, 4, Timestamp { micros: 0 });
    record_service_token(&mut store, &token, 5, Timestamp { micros: 2 * MICROS_PER_DAY });
    assert_eq!(validate_service_token_at(&store, "same", Timestamp { micros: 10 }), Some(4));
    let later = Timestamp { micros: 2 * MICROS_PER_DAY + 10 };
    assert_eq!(validate_service_token_at(&store, "same", later), Some(5));
}

#[test]
fn token_expiry_saturates_at_end_of_time() {
    let mut store = ServiceKeyStore::new();
    let token = GeneratedToken { raw: "t".into(), hash: hash_secret("t") };
    record_service_token(&mut store, &token, 1, Timestamp { micros: i64::MAX - 5 });
    assert_eq!(store.service_tokens()[0].expires_at, Timestamp { micros: i64::MAX });
}
