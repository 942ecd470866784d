use std::collections::HashMap;

use shloss::time::Timestamp;
use shloss::types::{Credentials, RegisterRequest, RegisterResponse, TokenKind, TokenType};

#[test]
fn kinds_are_labelled_without_secrets() {
    assert_eq!(TokenKind::Jwt.label(), "jwt");
    assert_eq!(TokenKind::Opaque.label(), "opaque");
    let password = Credentials::Password { username: "alice".into(), password: "hunter2".into() };
    assert_eq!(password.label(), "password");
    assert_eq!(Credentials::ApiKey { full_key: "k_secret".into() }.label(), "api-key");
    assert_eq!(TokenType::Jwt { claims: HashMap::new() }.label(), "jwt");
    assert_eq!(TokenType::Opaque { expires_at: Timestamp { micros: 5 } }.label(), "opaque");
    let reg = RegisterRequest::Password { username: "bob".into(), password: "pw".into() };
    assert_eq!(reg.label(), "password");
    let reg = RegisterRequest::ApiKey { name: "n".into(), key_prefix: "p".into(), expires_at: None };
    assert_eq!(reg.label(), "api-key");
}

#[test]
fn registration_answer_shows_only_the_user() {
    assert_eq!(RegisterResponse::Password { user_id: 12 }.user_id(), 12);
    assert_eq!(RegisterResponse::ApiKey { user_id: 34, raw_key: "p_secret".into() }.user_id(), 34);
}
