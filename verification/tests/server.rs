use shloss::auth::service::{record_service_token, ServiceKeyStore};
use shloss::crypto::{hash_secret, GeneratedToken};
use shloss::server::{authenticate, authenticate_at, bearer_token, UNAUTHORIZED};
use shloss::time::Timestamp;

#[test]
fn bearer_token_strips_scheme() {
    assert_eq!(bearer_token("Bearer abc"), Some("abc"));
    assert_eq!(bearer_token("Bearer "), Some(""));
    assert_eq!(bearer_token("bearer abc"), None);
    assert_eq!(bearer_token("Basic abc"), None);
    assert_eq!(bearer_token("Bear"), None);
    assert_eq!(bearer_token("Bearer  x"), Some(" x"));
}

#[test]
fn request_without_token_is_unauthorized() {
    let store = ServiceKeyStore::with_test_keys(&["shloss_testkey"]);
    assert_eq!(authenticate_at(&store, None, Timestamp { micros: 0 }), Err(UNAUTHORIZED));
    assert_eq!(authenticate_at(&store, Some("nonsense"), Timestamp { micros: 0 }), Err(UNAUTHORIZED));
    assert!(authenticate(&store, Some("Bearer invalid")).is_err());
}

#[test]
fn request_with_service_token_is_in_its_vault() {
    let mut store = ServiceKeyStore::with_test_keys(&["k0", "k1", "k2"]);
    let token = GeneratedToken { raw: "abc".into(), hash: hash_secret("abc") };
    record_service_token(&mut store, &token, 2, Timestamp { micros: 100 });
    assert_eq!(authenticate_at(&store, Some("Bearer abc"), Timestamp { micros: 200 }), Ok(2));
    assert_eq!(authenticate_at(&store, Some("Bearer abd"), Timestamp { micros: 200 }), Err(UNAUTHORIZED));
}

#[test]
fn live_service_token_authenticates_now() {
    let mut store = ServiceKeyStore::with_test_keys(&["shloss_testkey"]);
    let token = shloss::auth::service::login_service(&mut store, "shloss_testkey").unwrap().unwrap();
    let header = format!("Bearer {}", token.raw);
    assert_eq!(authenticate(&store, Some(&header)).map(|s| s.0), Ok(0));
}
