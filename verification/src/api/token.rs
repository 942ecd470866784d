//! Checking a token a user presented, within the caller's vault.

use vstd::prelude::*;

use crate::crypto::{hash_secret, secret_hash};
use crate::error::ShlossResult;
use crate::server::INTERNAL_SERVER_ERROR;
use crate::types::{TokenKind, TokenValidateRequest, TokenValidateResponse};

verus! {

/// How a token is checked.
#[derive(Debug, Clone)]
pub enum TokenLookup {
    /// Find the user of the unrevoked, unexpired opaque token with this hash in
    /// the vault.
    Opaque { hash: String, vault_id: u128 },
    /// Verify the JWT's signature and read its subject.
    Jwt { token: String },
}

/// How the token of a check request is checked: opaque tokens by the hash of
/// the raw token, within the vault; JWTs by their signature.
pub fn token_lookup(request: TokenValidateRequest, vault_id: u128) -> (lookup: TokenLookup)
    ensures
        match request.kind {
            TokenKind::Opaque => lookup matches TokenLookup::Opaque { hash, vault_id: v } && hash@ == secret_hash(request.token@) && v == vault_id,
            TokenKind::Jwt => lookup matches TokenLookup::Jwt { token } && token == request.token,
        },
{
    match request.kind {
        TokenKind::Opaque => TokenLookup::Opaque { hash: hash_secret(request.token.as_str()), vault_id },
        TokenKind::Jwt => TokenLookup::Jwt { token: request.token },
    }
}

/// The answer to a check: the token's user, `Invalid` when no user was found,
/// 500 when the check failed.
pub fn validation_answer(outcome: ShlossResult<Option<u128>>) -> (answer: Result<TokenValidateResponse, u16>)
    ensures
        answer == (match outcome {
            Ok(Some(user_id)) => Ok(TokenValidateResponse::Valid { user_id }),
            Ok(None) => Ok(TokenValidateResponse::Invalid),
            Err(_) => Err(INTERNAL_SERVER_ERROR),
        }),
{
    match outcome {
        Ok(Some(user_id)) => Ok(TokenValidateResponse::Valid { user_id }),
        Ok(None) => Ok(TokenValidateResponse::Invalid),
        Err(_) => Err(INTERNAL_SERVER_ERROR),
    }
}

} // verus!
