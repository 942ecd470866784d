use shloss::api::auth::answer_login_service;
use shloss::api::token::{token_lookup, validation_answer, TokenLookup};
use shloss::api::users::{
    add_api_key_answer, change_username_status, delete_user_status, done_status, found_status,
    password_update, password_update_with, read_answer, revoke_session_status, AddApiKeyFlow,
    RevokeAllAction, RevokeAllFlow,
};
use shloss::auth::service::{validate_service_token, ServiceKeyStore};
use shloss::auth::token::{StoredTokenLookup, TokenToValidate};
use shloss::config::TokenKind as StoredKind;
use shloss::crypto::{hash_password_with_salt, hash_secret, verify_password};
use shloss::error::{CryptoError, DbError, ShlossError};
use shloss::server::{CONFLICT, INTERNAL_SERVER_ERROR, NOT_FOUND, OK, UNAUTHORIZED};
use shloss::types::{LoginServiceRequest, TokenKind, TokenValidateRequest, TokenValidateResponse};

fn db(e: DbError) -> ShlossError {
    ShlossError::Database(e)
}

#[test]
fn service_login_answers() {
    let mut store = ServiceKeyStore::with_test_keys(&["shloss_testkey"]);
    let ok = answer_login_service(&mut store, LoginServiceRequest { raw_key: "shloss_testkey".into() }).unwrap();
    assert_eq!(validate_service_token(&store, &ok.token), Some(0));
    let refused = answer_login_service(&mut store, LoginServiceRequest { raw_key: "shloss_wrongkey".into() });
    assert_eq!(refused.unwrap_err(), UNAUTHORIZED);
    assert_eq!(store.service_tokens().len(), 1);
}

#[test]
fn token_check_lookups() {
    let l = token_lookup(TokenValidateRequest { token: "t".into(), kind: TokenKind::Opaque }, 3);
    assert!(matches!(l, TokenLookup::Opaque { ref hash, vault_id: 3 } if *hash == hash_secret("t")));
    let l = token_lookup(TokenValidateRequest { token: "j".into(), kind: TokenKind::Jwt }, 3);
    assert!(matches!(l, TokenLookup::Jwt { ref token } if token == "j"));
    let s = TokenToValidate { raw: "r".into(), kind: StoredKind::Refresh }.lookup();
    assert!(matches!(s, StoredTokenLookup::Refresh { ref hash } if *hash == hash_secret("r")));
    let s = TokenToValidate { raw: "o".into(), kind: StoredKind::Opague }.lookup();
    assert!(matches!(s, StoredTokenLookup::Opaque { ref hash } if *hash == hash_secret("o")));
}

#[test]
fn token_check_answers() {
    assert_eq!(validation_answer(Ok(Some(4))), Ok(TokenValidateResponse::Valid { user_id: 4 }));
    assert_eq!(validation_answer(Ok(None)), Ok(TokenValidateResponse::Invalid));
    assert_eq!(validation_answer(Err(db(DbError::Other))), Err(INTERNAL_SERVER_ERROR));
}

#[test]
fn user_operation_statuses() {
    assert_eq!(delete_user_status(&Ok(true)), OK);
    assert_eq!(delete_user_status(&Ok(false)), NOT_FOUND);
    assert_eq!(delete_user_status(&Err(db(DbError::Other))), INTERNAL_SERVER_ERROR);
    assert_eq!(found_status(&Ok(false)), NOT_FOUND);
    assert_eq!(change_username_status(&Err(db(DbError::UniqueViolation))), CONFLICT);
    assert_eq!(change_username_status(&Ok(true)), OK);
    assert_eq!(change_username_status(&Ok(false)), NOT_FOUND);
    assert_eq!(revoke_session_status(&Ok(())), OK);
    assert_eq!(revoke_session_status(&Err(db(DbError::RowNotFound))), NOT_FOUND);
    assert_eq!(revoke_session_status(&Err(db(DbError::UniqueViolation))), INTERNAL_SERVER_ERROR);
    assert_eq!(done_status(&Ok(())), OK);
    assert_eq!(done_status(&Err(db(DbError::Other))), INTERNAL_SERVER_ERROR);
    assert_eq!(read_answer::<u8>(Ok(3)), Ok(3));
    assert_eq!(read_answer::<u8>(Err(db(DbError::Other))), Err(INTERNAL_SERVER_ERROR));
}

#[test]
fn add_api_key_answers() {
    assert_eq!(add_api_key_answer(Ok(true), "prod_x".into()).unwrap().key, "prod_x");
    assert_eq!(add_api_key_answer(Ok(false), "prod_x".into()).unwrap_err(), NOT_FOUND);
    assert_eq!(add_api_key_answer(Err(db(DbError::Other)), "prod_x".into()).unwrap_err(), INTERNAL_SERVER_ERROR);
}

#[test]
fn revoke_all_runs_three_revocations_in_vault() {
    let (flow, action) = RevokeAllFlow::start(5, 6);
    assert_eq!(action, RevokeAllAction::RevokeOpaqueTokens { user_id: 5, vault_id: 6 });
    let (flow, action) = flow.step(&Ok(()));
    assert_eq!(action, RevokeAllAction::RevokeRefreshTokens { user_id: 5, vault_id: 6 });
    let (flow, action) = flow.step(&Ok(()));
    assert_eq!(action, RevokeAllAction::RevokeSessions { user_id: 5, vault_id: 6 });
    let (_, action) = flow.step(&Ok(()));
    assert_eq!(action, RevokeAllAction::Respond(OK));
}

#[test]
fn revoke_all_stops_at_first_failure() {
    let (flow, _) = RevokeAllFlow::start(5, 6);
    let (flow, _) = flow.step(&Ok(()));
    let (_, action) = flow.step(&Err(db(DbError::Other)));
    assert_eq!(action, RevokeAllAction::Respond(INTERNAL_SERVER_ERROR));
}

#[test]
fn password_change_hashes_under_the_drawn_salt() {
    let salt = vec![3u8; 16];
    let u = password_update_with(5, 6, "newpw", Ok(salt.clone())).unwrap();
    assert_eq!((u.user_id, u.vault_id), (5, 6));
    assert_eq!(u.hash, hash_password_with_salt("newpw", &salt).unwrap());
    assert_eq!(password_update_with(5, 6, "newpw", Err(CryptoError::PasswordHash)).unwrap_err(), INTERNAL_SERVER_ERROR);
    assert_eq!(password_update_with(5, 6, "newpw", Ok(vec![1u8; 2])).unwrap_err(), INTERNAL_SERVER_ERROR);
    let fresh = password_update(5, 6, "newpw").unwrap();
    assert_eq!(verify_password("newpw", &fresh.hash), Ok(true));
    assert_ne!(fresh.hash, "newpw");
}

#[test]
fn added_api_key_is_handed_out_as_stored() {
    let (flow, record) = AddApiKeyFlow::start_with(5, 6, "ci".into(), "pre".into(), None, Ok("s3".into())).unwrap();
    assert_eq!(flow.full_key, "pre_s3");
    assert_eq!(record.hash, hash_secret("pre_s3"));
    assert_eq!((record.user_id, record.vault_id, record.name.as_str(), record.key_prefix.as_str()), (5, 6, "ci", "pre"));
    assert_eq!(flow.clone().finish(Ok(true)).unwrap().key, "pre_s3");
    assert_eq!(flow.clone().finish(Ok(false)).unwrap_err(), NOT_FOUND);
    assert_eq!(flow.finish(Err(db(DbError::Other))).unwrap_err(), INTERNAL_SERVER_ERROR);
    let failed = AddApiKeyFlow::start_with(5, 6, "ci".into(), "pre".into(), None, Err(CryptoError::Random));
    assert_eq!(failed.unwrap_err(), INTERNAL_SERVER_ERROR);
    let (flow, record) = AddApiKeyFlow::start(1, 2, "x".into(), "k".into(), None).unwrap();
    assert!(flow.full_key.starts_with("k_"));
    assert_eq!(record.hash, hash_secret(&flow.full_key));
}
