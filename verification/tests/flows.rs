use std::collections::HashMap;

use shloss::api::auth::{login_answer, register_answer};
use shloss::api::refresh::{RefreshAction, RefreshEvent, RefreshFlow};
use shloss::auth::login::{LoginAction, LoginEvent, LoginFlow};
use shloss::auth::register::{RegisterAction, RegisterEvent, RegisterFlow};
use shloss::crypto::{hash_password, hash_password_with_salt, hash_secret, verify_password};
use shloss::error::{CryptoError, DbError, ShlossError};
use shloss::server::{CONFLICT, INTERNAL_SERVER_ERROR, UNAUTHORIZED};
use shloss::time::Timestamp;
use shloss::types::{
    Credentials, IssuedToken, LoginContext, RefreshRequest, RefreshResponse, RefreshTokenRequest,
    RegisterRequest, RegisterResponse, TokenType,
};

fn password_context(username: &str, password: &str, refresh: Option<i64>) -> LoginContext {
    LoginContext {
        credentials: Credentials::Password { username: username.into(), password: password.into() },
        ip_address: None,
        user_agent: Some("agent".into()),
        token: TokenType::Opaque { expires_at: Timestamp { micros: 1_000 } },
        refresh: refresh.map(|m| RefreshTokenRequest { expires_at: Timestamp { micros: m } }),
    }
}

#[test]
fn password_login_issues_opaque_and_refresh_tokens() {
    let stored = hash_password("hunter2").unwrap();
    let (flow, action) = LoginFlow::start(password_context("alice", "hunter2", Some(2_000)), 7);
    assert!(matches!(action, LoginAction::FindUserByUsername { ref username, vault_id: 7 } if username == "alice"));
    let (flow, action) = flow.step(LoginEvent::User(Some(42)));
    assert!(matches!(action, LoginAction::FindPasswordHash { user_id: 42, vault_id: 7 }));
    let (flow, action) = flow.step(LoginEvent::PasswordHash(Some(stored)));
    assert!(matches!(action, LoginAction::CreateSession { user_id: 42, ip_address: None, ref user_agent } if user_agent.as_deref() == Some("agent")));
    let (flow, action) = flow.step(LoginEvent::SessionCreated(99));
    let opaque_hash = match action {
        LoginAction::StoreOpaqueToken { hash, user_id: 42, session_id: 99, expires_at } => {
            assert_eq!(expires_at, Timestamp { micros: 1_000 });
            hash
        }
        other => panic!("unexpected {:?}", other),
    };
    let (flow, action) = flow.step(LoginEvent::Done);
    let refresh_hash = match action {
        LoginAction::StoreRefreshToken { hash, user_id: 42, session_id: 99, expires_at } => {
            assert_eq!(expires_at, Timestamp { micros: 2_000 });
            hash
        }
        other => panic!("unexpected {:?}", other),
    };
    let (_, action) = flow.step(LoginEvent::Done);
    let result = match action {
        LoginAction::Finish(Ok(Some(r))) => r,
        other => panic!("unexpected {:?}", other),
    };
    assert_eq!(result.user_id, 42);
    let raw = match &result.token {
        IssuedToken::Opaque(t) => t.clone(),
        other => panic!("unexpected {:?}", other),
    };
    assert_eq!(hash_secret(&raw), opaque_hash);
    assert_eq!(hash_secret(result.refresh_token.as_ref().unwrap()), refresh_hash);
    let answer = login_answer(Ok(Some(result))).unwrap();
    assert_eq!(answer.user_id, 42);
    assert_eq!(answer.token, raw);
}

#[test]
fn wrong_password_and_unknown_user_are_refused_alike() {
    let stored = hash_password("hunter2").unwrap();
    let (flow, _) = LoginFlow::start(password_context("alice", "wrong", None), 1);
    let (flow, _) = flow.step(LoginEvent::User(Some(3)));
    let (_, wrong) = flow.step(LoginEvent::PasswordHash(Some(stored)));
    let (flow, _) = LoginFlow::start(password_context("nobody", "x", None), 1);
    let (_, unknown) = flow.step(LoginEvent::User(None));
    assert!(matches!(wrong, LoginAction::Finish(Ok(None))));
    assert!(matches!(unknown, LoginAction::Finish(Ok(None))));
    assert_eq!(login_answer(Ok(None)).unwrap_err(), UNAUTHORIZED);
}

#[test]
fn api_key_login_with_jwt() {
    let context = LoginContext {
        credentials: Credentials::ApiKey { full_key: "prod_abc".into() },
        ip_address: None,
        user_agent: None,
        token: TokenType::Jwt { claims: HashMap::new() },
        refresh: None,
    };
    let (flow, action) = LoginFlow::start(context, 3);
    match action {
        LoginAction::FindUserByApiKey { key_hash, vault_id } => {
            assert_eq!(key_hash, hash_secret("prod_abc"));
            assert_eq!(vault_id, 3);
        }
        other => panic!("unexpected {:?}", other),
    }
    let (flow, action) = flow.step(LoginEvent::User(Some(8)));
    assert!(matches!(action, LoginAction::MarkApiKeyUsed { ref key_hash } if *key_hash == hash_secret("prod_abc")));
    let (flow, action) = flow.step(LoginEvent::Done);
    assert!(matches!(action, LoginAction::CreateSession { user_id: 8, .. }));
    let (flow, action) = flow.step(LoginEvent::SessionCreated(5));
    assert!(matches!(action, LoginAction::SignJwt { user_id: 8, .. }));
    let (_, action) = flow.step(LoginEvent::JwtSigned("a.b.c".into()));
    match action {
        LoginAction::Finish(Ok(Some(r))) => {
            assert_eq!(r.user_id, 8);
            assert!(matches!(r.token, IssuedToken::Jwt(ref t) if t == "a.b.c"));
            assert!(r.refresh_token.is_none());
        }
        other => panic!("unexpected {:?}", other),
    }
}

#[test]
fn login_failures_end_the_flow() {
    let (flow, _) = LoginFlow::start(password_context("a", "b", None), 1);
    let (_, action) = flow.step(LoginEvent::Failed(ShlossError::Database(DbError::Other)));
    assert!(matches!(action, LoginAction::Finish(Err(ShlossError::Database(DbError::Other)))));
    assert_eq!(login_answer(Err(ShlossError::Database(DbError::Other))).unwrap_err(), INTERNAL_SERVER_ERROR);
    let (flow, _) = LoginFlow::start(password_context("a", "b", None), 1);
    let (flow, _) = flow.step(LoginEvent::User(Some(1)));
    let (_, action) = flow.step(LoginEvent::PasswordHash(Some("garbage".into())));
    assert!(matches!(action, LoginAction::Finish(Err(ShlossError::Crypto(CryptoError::PasswordVerify)))));
}

#[test]
fn out_of_order_event_is_an_error() {
    let (flow, _) = LoginFlow::start(password_context("a", "b", None), 1);
    let (_, action) = flow.step(LoginEvent::Done);
    assert!(matches!(action, LoginAction::Finish(Err(ShlossError::Database(DbError::Other)))));
}

#[test]
fn password_registration_stores_a_verifying_hash() {
    let request = RegisterRequest::Password { username: "bob".into(), password: "pw".into() };
    let (flow, action) = RegisterFlow::start(request, 4);
    assert!(matches!(action, RegisterAction::CreateUser { vault_id: 4 }));
    let (flow, action) = flow.step(RegisterEvent::UserCreated(11));
    match action {
        RegisterAction::StorePassword { user_id, vault_id, username, hash } => {
            assert_eq!((user_id, vault_id, username.as_str()), (11, 4, "bob"));
            assert_eq!(verify_password("pw", &hash), Ok(true));
        }
        other => panic!("unexpected {:?}", other),
    }
    let (_, action) = flow.step(RegisterEvent::Done);
    assert!(matches!(action, RegisterAction::Finish(Ok(RegisterResponse::Password { user_id: 11 }))));
}

#[test]
fn api_key_registration_returns_raw_key_and_stores_hash() {
    let request = RegisterRequest::ApiKey { name: "mykey".into(), key_prefix: "prod".into(), expires_at: None };
    let (flow, _) = RegisterFlow::start(request, 2);
    let (flow, action) = flow.step(RegisterEvent::UserCreated(6));
    let stored = match action {
        RegisterAction::StoreApiKey { user_id: 6, name, key_prefix, hash, expires_at: None, vault_id: 2 } => {
            assert_eq!(name, "mykey");
            assert_eq!(key_prefix, "prod");
            hash
        }
        other => panic!("unexpected {:?}", other),
    };
    let (_, action) = flow.step(RegisterEvent::Done);
    match action {
        RegisterAction::Finish(Ok(RegisterResponse::ApiKey { user_id: 6, raw_key })) => {
            assert!(raw_key.starts_with("prod_"));
            assert_eq!(hash_secret(&raw_key), stored);
        }
        other => panic!("unexpected {:?}", other),
    }
}

#[test]
fn duplicate_username_is_a_conflict() {
    let (flow, _) = RegisterFlow::start(RegisterRequest::Password { username: "d".into(), password: "p".into() }, 1);
    let (flow, _) = flow.step(RegisterEvent::UserCreated(1));
    let (_, action) = flow.step(RegisterEvent::Failed(ShlossError::Database(DbError::UniqueViolation)));
    let outcome = match action {
        RegisterAction::Finish(r) => r,
        other => panic!("unexpected {:?}", other),
    };
    assert!(matches!(register_answer(outcome), Err(CONFLICT)));
    assert!(matches!(register_answer(Err(ShlossError::Database(DbError::Other))), Err(INTERNAL_SERVER_ERROR)));
}

#[test]
fn refresh_rotates_with_same_lifetime_and_issues_opaque_token() {
    let request = RefreshRequest {
        refresh_token: "old".into(),
        token_type: TokenType::Opaque { expires_at: Timestamp { micros: 77 } },
    };
    let (flow, action) = RefreshFlow::start(request, 9);
    assert!(matches!(action, RefreshAction::FindRefreshToken { ref hash, vault_id: 9 } if *hash == hash_secret("old")));
    let (flow, action) = flow.step(RefreshEvent::TokenFound(Some(123)));
    assert!(matches!(action, RefreshAction::FetchTimes { token_id: 123 }));
    let (flow, action) = flow.step(RefreshEvent::Times {
        issued_at: Timestamp { micros: 100 },
        expires_at: Timestamp { micros: 600 },
        now: Timestamp { micros: 1_000 },
    });
    let new_hash = match action {
        RefreshAction::Rotate { token_id: 123, hash, issued_at, expires_at } => {
            assert_eq!(issued_at, Timestamp { micros: 1_000 });
            assert_eq!(expires_at, Timestamp { micros: 1_500 });
            hash
        }
        other => panic!("unexpected {:?}", other),
    };
    let (flow, action) = flow.step(RefreshEvent::Rotated(Some((5, 6))));
    let token_hash = match action {
        RefreshAction::StoreOpaqueToken { hash, user_id: 5, session_id: 6, expires_at } => {
            assert_eq!(expires_at, Timestamp { micros: 77 });
            hash
        }
        other => panic!("unexpected {:?}", other),
    };
    let (_, action) = flow.step(RefreshEvent::Done);
    match action {
        RefreshAction::Respond(Ok(RefreshResponse::Valid { new_refresh, new_token })) => {
            assert_eq!(hash_secret(&new_refresh), new_hash);
            assert_eq!(hash_secret(&new_token), token_hash);
        }
        other => panic!("unexpected {:?}", other),
    }
}

#[test]
fn unknown_refresh_token_is_invalid() {
    let request = RefreshRequest { refresh_token: "x".into(), token_type: TokenType::Jwt { claims: HashMap::new() } };
    let (flow, _) = RefreshFlow::start(request, 1);
    let (_, action) = flow.step(RefreshEvent::TokenFound(None));
    assert!(matches!(action, RefreshAction::Respond(Ok(RefreshResponse::Invalid))));
}

#[test]
fn refresh_token_that_can_no_longer_rotate_is_invalid() {
    let request = RefreshRequest { refresh_token: "x".into(), token_type: TokenType::Jwt { claims: HashMap::new() } };
    let (flow, _) = RefreshFlow::start(request, 1);
    let (flow, _) = flow.step(RefreshEvent::TokenFound(Some(1)));
    let (flow, _) = flow.step(RefreshEvent::Times {
        issued_at: Timestamp { micros: 0 },
        expires_at: Timestamp { micros: 10 },
        now: Timestamp { micros: 5 },
    });
    let (_, action) = flow.step(RefreshEvent::Rotated(None));
    assert!(matches!(action, RefreshAction::Respond(Ok(RefreshResponse::Invalid))));
}

#[test]
fn refresh_with_jwt_and_failure() {
    let request = RefreshRequest { refresh_token: "x".into(), token_type: TokenType::Jwt { claims: HashMap::new() } };
    let (flow, _) = RefreshFlow::start(request, 1);
    let (flow, _) = flow.step(RefreshEvent::TokenFound(Some(1)));
    let (flow, _) = flow.step(RefreshEvent::Times {
        issued_at: Timestamp { micros: 0 },
        expires_at: Timestamp { micros: 10 },
        now: Timestamp { micros: 5 },
    });
    let (flow, action) = flow.step(RefreshEvent::Rotated(Some((2, 3))));
    assert!(matches!(action, RefreshAction::SignJwt { user_id: 2, .. }));
    let (_, action) = flow.step(RefreshEvent::JwtSigned("h.p.s".into()));
    assert!(matches!(action, RefreshAction::Respond(Ok(RefreshResponse::Valid { ref new_token, .. })) if new_token == "h.p.s"));
    let request = RefreshRequest { refresh_token: "x".into(), token_type: TokenType::Jwt { claims: HashMap::new() } };
    let (flow, _) = RefreshFlow::start(request, 1);
    let (_, action) = flow.step(RefreshEvent::Failed);
    assert!(matches!(action, RefreshAction::Respond(Err(INTERNAL_SERVER_ERROR))));
}

#[test]
fn login_issues_the_drawn_secrets() {
    let stored = hash_password("hunter2").unwrap();
    let (flow, _) = LoginFlow::start(password_context("alice", "hunter2", Some(2_000)), 7);
    let (flow, _) = flow.step(LoginEvent::User(Some(42)));
    let (flow, _) = flow.step(LoginEvent::PasswordHash(Some(stored)));
    let (flow, action) = flow.step_with(LoginEvent::SessionCreated(99), Ok("abc".to_string()));
    match action {
        LoginAction::StoreOpaqueToken { hash, user_id: 42, session_id: 99, .. } => {
            assert_eq!(hash, hash_secret("abc"))
        }
        other => panic!("unexpected {:?}", other),
    }
    let (flow, action) = flow.step_with(LoginEvent::Done, Ok("def".to_string()));
    match action {
        LoginAction::StoreRefreshToken { hash, user_id: 42, session_id: 99, .. } => {
            assert_eq!(hash, hash_secret("def"))
        }
        other => panic!("unexpected {:?}", other),
    }
    let (_, action) = flow.step_with(LoginEvent::Done, Err(CryptoError::Random));
    match action {
        LoginAction::Finish(Ok(Some(r))) => {
            assert_eq!(r.user_id, 42);
            assert!(matches!(r.token, IssuedToken::Opaque(ref t) if t == "abc"));
            assert_eq!(r.refresh_token.as_deref(), Some("def"));
        }
        other => panic!("unexpected {:?}", other),
    }
}

#[test]
fn login_ends_when_no_secret_could_be_drawn() {
    let stored = hash_password("hunter2").unwrap();
    let (flow, _) = LoginFlow::start(password_context("alice", "hunter2", None), 7);
    let (flow, _) = flow.step(LoginEvent::User(Some(42)));
    let (flow, _) = flow.step(LoginEvent::PasswordHash(Some(stored)));
    let (_, action) = flow.step_with(LoginEvent::SessionCreated(99), Err(CryptoError::Random));
    assert!(matches!(action, LoginAction::Finish(Err(ShlossError::Crypto(CryptoError::Random)))));
}

#[test]
fn registration_uses_the_drawn_salt_and_secret() {
    let request = RegisterRequest::Password { username: "bob".into(), password: "pw".into() };
    let (flow, _) = RegisterFlow::start(request, 4);
    let salt = vec![7u8; 16];
    let (_, action) = flow.step_with(RegisterEvent::UserCreated(11), Ok(salt.clone()), Err(CryptoError::Random));
    match action {
        RegisterAction::StorePassword { user_id: 11, vault_id: 4, hash, .. } => {
            assert_eq!(hash, hash_password_with_salt("pw", &salt).unwrap())
        }
        other => panic!("unexpected {:?}", other),
    }
    let request = RegisterRequest::Password { username: "bob".into(), password: "pw".into() };
    let (flow, _) = RegisterFlow::start(request, 4);
    let (_, action) = flow.step_with(RegisterEvent::UserCreated(11), Ok(vec![1u8; 2]), Ok("s".into()));
    assert!(matches!(action, RegisterAction::Finish(Err(ShlossError::Crypto(CryptoError::PasswordHash)))));
    let request = RegisterRequest::ApiKey { name: "k".into(), key_prefix: "pre".into(), expires_at: None };
    let (flow, _) = RegisterFlow::start(request, 4);
    let (flow, action) = flow.step_with(RegisterEvent::UserCreated(11), Err(CryptoError::PasswordHash), Ok("s3".into()));
    match action {
        RegisterAction::StoreApiKey { hash, .. } => assert_eq!(hash, hash_secret("pre_s3")),
        other => panic!("unexpected {:?}", other),
    }
    let (_, action) = flow.step(RegisterEvent::Done);
    assert!(matches!(action, RegisterAction::Finish(Ok(RegisterResponse::ApiKey { user_id: 11, ref raw_key })) if raw_key == "pre_s3"));
}

#[test]
fn refresh_hands_out_the_drawn_secrets() {
    let request = RefreshRequest {
        refresh_token: "old".into(),
        token_type: TokenType::Opaque { expires_at: Timestamp { micros: 77 } },
    };
    let (flow, _) = RefreshFlow::start(request, 9);
    let (flow, _) = flow.step_with(RefreshEvent::TokenFound(Some(123)), Ok("newref".into()));
    let (flow, action) = flow.step(RefreshEvent::Times {
        issued_at: Timestamp { micros: 100 },
        expires_at: Timestamp { micros: 600 },
        now: Timestamp { micros: 1_000 },
    });
    assert!(matches!(action, RefreshAction::Rotate { ref hash, .. } if *hash == hash_secret("newref")));
    let (flow, action) = flow.step_with(RefreshEvent::Rotated(Some((5, 6))), Ok("tok".into()));
    assert!(matches!(action, RefreshAction::StoreOpaqueToken { ref hash, .. } if *hash == hash_secret("tok")));
    let (_, action) = flow.step(RefreshEvent::Done);
    assert!(matches!(action, RefreshAction::Respond(Ok(RefreshResponse::Valid { ref new_refresh, ref new_token }))
        if new_refresh == "newref" && new_token == "tok"));
    let request = RefreshRequest { refresh_token: "old".into(), token_type: TokenType::Jwt { claims: HashMap::new() } };
    let (flow, _) = RefreshFlow::start(request, 9);
    let (_, action) = flow.step_with(RefreshEvent::TokenFound(Some(1)), Err(CryptoError::Random));
    assert!(matches!(action, RefreshAction::Respond(Err(INTERNAL_SERVER_ERROR))));
}
