//! Answers of the authentication endpoints.

use vstd::prelude::*;

use crate::auth::service::{login_service, ServiceKeyStore};
use crate::crypto::secret_hash;
use crate::error::{DbError, ShlossError, ShlossResult};
use crate::server::{CONFLICT, INTERNAL_SERVER_ERROR, UNAUTHORIZED};
use crate::types::{IssuedToken, LoginResponse, LoginResult, LoginServiceRequest, LoginServiceResponse, RegisterResponse};

verus! {

/// The raw text of an issued token, whatever its kind.
pub open spec fn issued_text(token: IssuedToken) -> String {
    match token {
        IssuedToken::Jwt(t) => t,
        IssuedToken::Opaque(t) => t,
    }
}

/// The answer to a login: the user's id and tokens; 401 when the credentials
/// were refused; 500 when the login failed.
pub fn login_answer(outcome: ShlossResult<Option<LoginResult>>) -> (answer: Result<LoginResponse, u16>)
    ensures
        answer == (match outcome {
            Ok(Some(r)) => Ok(LoginResponse { user_id: r.user_id, token: issued_text(r.token), refresh_token: r.refresh_token }),
            Ok(None) => Err(UNAUTHORIZED),
            Err(_) => Err(INTERNAL_SERVER_ERROR),
        }),
{
    match outcome {
        Ok(Some(r)) => {
            let token = match r.token {
                IssuedToken::Jwt(t) => t,
                IssuedToken::Opaque(t) => t,
            };
            Ok(LoginResponse { user_id: r.user_id, token, refresh_token: r.refresh_token })
        },
        Ok(None) => Err(UNAUTHORIZED),
        Err(_) => Err(INTERNAL_SERVER_ERROR),
    }
}

/// The answer to a registration: 409 when the username is taken (in the
/// vault), 500 on any other failure.
pub fn register_answer(outcome: ShlossResult<RegisterResponse>) -> (answer: Result<RegisterResponse, u16>)
    ensures
        answer == (match outcome {
            Ok(r) => Ok(r),
            Err(ShlossError::Database(DbError::UniqueViolation)) => Err(CONFLICT),
            Err(_) => Err(INTERNAL_SERVER_ERROR),
        }),
{
    match outcome {
        Ok(r) => Ok(r),
        Err(ShlossError::Database(DbError::UniqueViolation)) => Err(CONFLICT),
        Err(_) => Err(INTERNAL_SERVER_ERROR),
    }
}

/// A service logs in with its raw key: the raw service token, 401 for an
/// unknown key (the store is then unchanged), 500 when no token could be
/// generated.
pub fn answer_login_service(store: &mut ServiceKeyStore, body: LoginServiceRequest) -> (answer: Result<LoginServiceResponse, u16>)
    ensures
        final(store).keys() == old(store).keys(),
        !old(store).keys().contains_key(secret_hash(body.raw_key@)) ==> answer == Err::<LoginServiceResponse, u16>(UNAUTHORIZED) && final(store).tokens() == old(store).tokens(),
        old(store).keys().contains_key(secret_hash(body.raw_key@)) ==> match answer {
            Ok(r) => final(store).tokens().len() == old(store).tokens().len() + 1
                && final(store).tokens().drop_last() == old(store).tokens()
                && final(store).tokens().last().hash@ == secret_hash(r.token@)
                && final(store).tokens().last().vault_id == old(store).keys()[secret_hash(body.raw_key@)],
            Err(s) => s == INTERNAL_SERVER_ERROR && final(store).tokens() == old(store).tokens(),
        },
{
    match login_service(store, body.raw_key.as_str()) {
        Ok(Some(token)) => Ok(LoginServiceResponse { token: token.raw }),
        Ok(None) => Err(UNAUTHORIZED),
        Err(_) => Err(INTERNAL_SERVER_ERROR),
    }
}

} // verus!
