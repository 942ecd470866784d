//! Answers of the endpoints that manage a user, all within the caller's vault.

use vstd::prelude::*;

use crate::crypto::{
    api_key_from_secret, argon2_accepts, argon2_check, argon2_phc, drawn_salt, drawn_secret,
    generate_salt, generate_secret, hash_password_with_salt, prefixed_key, secret_hash,
};
use crate::error::{CryptoError, DbError, ShlossError, ShlossResult};
use crate::server::{CONFLICT, INTERNAL_SERVER_ERROR, NOT_FOUND, OK};
use crate::time::Timestamp;
use crate::types::AddApiKeyResponse;

verus! {

/// The status of an operation that succeeds or fails as a whole.
pub fn done_status(outcome: &ShlossResult<()>) -> (status: u16)
    ensures
        status == (if outcome is Ok { OK } else { INTERNAL_SERVER_ERROR }),
{
    match outcome {
        Ok(()) => OK,
        Err(_) => INTERNAL_SERVER_ERROR,
    }
}

/// The value of a successful read, or 500.
pub fn read_answer<T>(outcome: ShlossResult<T>) -> (answer: Result<T, u16>)
    ensures
        answer == (match outcome {
            Ok(v) => Ok(v),
            Err(_) => Err(INTERNAL_SERVER_ERROR),
        }),
{
    match outcome {
        Ok(v) => Ok(v),
        Err(_) => Err(INTERNAL_SERVER_ERROR),
    }
}

/// The status of an operation on a user that may not exist in the vault:
/// 200 when it took effect, 404 when no such user was found, 500 on failure.
pub fn found_status(outcome: &ShlossResult<bool>) -> (status: u16)
    ensures
        status == (match outcome {
            Ok(true) => OK,
            Ok(false) => NOT_FOUND,
            Err(_) => INTERNAL_SERVER_ERROR,
        }),
{
    match outcome {
        Ok(true) => OK,
        Ok(false) => NOT_FOUND,
        Err(_) => INTERNAL_SERVER_ERROR,
    }
}

/// The status of a user's deletion.
pub fn delete_user_status(outcome: &ShlossResult<bool>) -> (status: u16)
    ensures
        status == found_status_spec(*outcome),
{
    found_status(outcome)
}

/// The status of a password change, from the outcome of updating the stored
/// hash: as for any operation on a user (a hashing failure is answered by
/// `password_update` before any update).
pub fn change_password_status(outcome: &ShlossResult<bool>) -> (status: u16)
    ensures
        status == found_status_spec(*outcome),
{
    found_status(outcome)
}

/// The specification of `found_status`.
pub open spec fn found_status_spec(outcome: ShlossResult<bool>) -> u16 {
    match outcome {
        Ok(true) => OK,
        Ok(false) => NOT_FOUND,
        Err(_) => INTERNAL_SERVER_ERROR,
    }
}

/// The status of a username change: 409 when the username is taken in the
/// vault, else as for any operation on a user.
pub fn change_username_status(outcome: &ShlossResult<bool>) -> (status: u16)
    ensures
        status == (match *outcome {
            Err(ShlossError::Database(DbError::UniqueViolation)) => CONFLICT,
            _ => found_status_spec(*outcome),
        }),
{
    match outcome {
        Err(ShlossError::Database(DbError::UniqueViolation)) => CONFLICT,
        _ => found_status(outcome),
    }
}

/// The status of revoking one session: 404 when the session is not a session
/// of that user in the vault.
pub fn revoke_session_status(outcome: &ShlossResult<()>) -> (status: u16)
    ensures
        status == (match *outcome {
            Ok(()) => OK,
            Err(ShlossError::Database(DbError::RowNotFound)) => NOT_FOUND,
            Err(_) => INTERNAL_SERVER_ERROR,
        }),
{
    match outcome {
        Ok(()) => OK,
        Err(ShlossError::Database(DbError::RowNotFound)) => NOT_FOUND,
        Err(_) => INTERNAL_SERVER_ERROR,
    }
}

/// The answer to adding an API key: the raw key when it was stored, 404 when
/// the user is not in the vault, 500 on failure.
pub fn add_api_key_answer(stored: ShlossResult<bool>, full_key: String) -> (answer: Result<AddApiKeyResponse, u16>)
    ensures
        answer == (match stored {
            Ok(true) => Ok(AddApiKeyResponse { key: full_key }),
            Ok(false) => Err(NOT_FOUND),
            Err(_) => Err(INTERNAL_SERVER_ERROR),
        }),
{
    match stored {
        Ok(true) => Ok(AddApiKeyResponse { key: full_key }),
        Ok(false) => Err(NOT_FOUND),
        Err(_) => Err(INTERNAL_SERVER_ERROR),
    }
}

/// Where revoking everything of a user stands: opaque tokens first, then
/// refresh tokens, then sessions.
#[derive(Debug, Clone, Copy, PartialEq, Eq, Structural)]
pub enum RevokeAllStage {
    OpaqueTokens,
    RefreshTokens,
    Sessions,
    Finished,
}

/// The next operation of revoking everything of a user.
#[derive(Debug, Clone, Copy, PartialEq, Eq, Structural)]
pub enum RevokeAllAction {
    RevokeOpaqueTokens { user_id: u128, vault_id: u128 },
    RevokeRefreshTokens { user_id: u128, vault_id: u128 },
    RevokeSessions { user_id: u128, vault_id: u128 },
    Respond(u16),
}

/// Revoking all tokens and sessions of a user in a vault.
#[derive(Debug, Clone, Copy, PartialEq, Eq, Structural)]
pub struct RevokeAllFlow {
    pub user_id: u128,
    pub vault_id: u128,
    pub stage: RevokeAllStage,
}

impl RevokeAllFlow {
    /// Starts with the user's opaque tokens.
    pub fn start(user_id: u128, vault_id: u128) -> (started: (RevokeAllFlow, RevokeAllAction))
        ensures
            started.0 == (RevokeAllFlow { user_id, vault_id, stage: RevokeAllStage::OpaqueTokens }),
            started.1 == (RevokeAllAction::RevokeOpaqueTokens { user_id, vault_id }),
    {
        (RevokeAllFlow { user_id, vault_id, stage: RevokeAllStage::OpaqueTokens }, RevokeAllAction::RevokeOpaqueTokens { user_id, vault_id })
    }

    /// The next revocation after a success; 500 at the first failure; 200 once
    /// the sessions are revoked.
    pub fn step(self, outcome: &ShlossResult<()>) -> (next: (RevokeAllFlow, RevokeAllAction))
        ensures
            next.0.user_id == self.user_id && next.0.vault_id == self.vault_id,
            outcome is Err || self.stage is Finished ==> next.0.stage is Finished && next.1 == RevokeAllAction::Respond(INTERNAL_SERVER_ERROR),
            outcome is Ok ==> match self.stage {
                RevokeAllStage::OpaqueTokens => next.0.stage is RefreshTokens && next.1 == RevokeAllAction::RevokeRefreshTokens { user_id: self.user_id, vault_id: self.vault_id },
                RevokeAllStage::RefreshTokens => next.0.stage is Sessions && next.1 == RevokeAllAction::RevokeSessions { user_id: self.user_id, vault_id: self.vault_id },
                RevokeAllStage::Sessions => next.0.stage is Finished && next.1 == RevokeAllAction::Respond(OK),
                RevokeAllStage::Finished => true,
            },
    {
        let user_id = self.user_id;
        let vault_id = self.vault_id;
        let failed = RevokeAllFlow { user_id, vault_id, stage: RevokeAllStage::Finished };
        if outcome.is_err() {
            return (failed, RevokeAllAction::Respond(INTERNAL_SERVER_ERROR));
        }
        match self.stage {
            RevokeAllStage::OpaqueTokens => (
                RevokeAllFlow { user_id, vault_id, stage: RevokeAllStage::RefreshTokens },
                RevokeAllAction::RevokeRefreshTokens { user_id, vault_id },
            ),
            RevokeAllStage::RefreshTokens => (
                RevokeAllFlow { user_id, vault_id, stage: RevokeAllStage::Sessions },
                RevokeAllAction::RevokeSessions { user_id, vault_id },
            ),
            RevokeAllStage::Sessions => (failed, RevokeAllAction::Respond(OK)),
            RevokeAllStage::Finished => (failed, RevokeAllAction::Respond(INTERNAL_SERVER_ERROR)),
        }
    }
}

/// The update a password change asks for: the user's password hash in the
/// vault becomes `hash`.
#[derive(Debug, Clone)]
pub struct PasswordUpdate {
    pub user_id: u128,
    pub vault_id: u128,
    pub hash: String,
}

/// What a password change asks to store, given the drawn salt: the Argon2 hash
/// of the new password under that salt; 500 where the salt could not be drawn
/// or Argon2 refuses the inputs.
pub open spec fn password_update_spec(
    user_id: u128,
    vault_id: u128,
    new_password: Seq<char>,
    salt: Result<Vec<u8>, CryptoError>,
    update: Result<PasswordUpdate, u16>,
) -> bool {
    match salt {
        Err(_) => update == Err::<PasswordUpdate, u16>(INTERNAL_SERVER_ERROR),
        Ok(s) => {
            ||| !argon2_accepts(new_password, s@) && update == Err::<PasswordUpdate, u16>(INTERNAL_SERVER_ERROR)
            ||| update matches Ok(u) && u.user_id == user_id && u.vault_id == vault_id
                && u.hash@ == argon2_phc(new_password, s@) && argon2_check(new_password, u.hash@) == Some(true)
        },
    }
}

/// The update a password change asks for, with the new password hashed under
/// the given salt, or the status that ends the change.
pub fn password_update_with(
    user_id: u128,
    vault_id: u128,
    new_password: &str,
    salt: Result<Vec<u8>, CryptoError>,
) -> (update: Result<PasswordUpdate, u16>)
    ensures
        password_update_spec(user_id, vault_id, new_password@, salt, update),
{
    let s = match salt {
        Ok(s) => s,
        Err(_) => return Err(INTERNAL_SERVER_ERROR),
    };
    if s.len() < 3 {
        return Err(INTERNAL_SERVER_ERROR);
    }
    match hash_password_with_salt(new_password, s.as_slice()) {
        Ok(hash) => Ok(PasswordUpdate { user_id, vault_id, hash }),
        Err(_) => Err(INTERNAL_SERVER_ERROR),
    }
}

/// The update a password change asks for, with the new password hashed under
/// a fresh random salt, or the status that ends the change.
pub fn password_update(user_id: u128, vault_id: u128, new_password: &str) -> (update: Result<
    PasswordUpdate,
    u16,
>)
    ensures
        exists|salt: Result<Vec<u8>, CryptoError>|
            #[trigger] drawn_salt(salt) && password_update_spec(user_id, vault_id, new_password@, salt, update),
{
    let salt = generate_salt();
    let update = password_update_with(user_id, vault_id, new_password, salt);
    assert(drawn_salt(salt));
    update
}

/// The API key an add-key request asks to store, by its hash.
#[derive(Debug, Clone)]
pub struct ApiKeyRecord {
    pub user_id: u128,
    pub name: String,
    pub key_prefix: String,
    pub hash: String,
    pub expires_at: Option<Timestamp>,
    pub vault_id: u128,
}

/// Adding an API key, once the key is made: the raw key handed out when the
/// record is stored.
#[derive(Debug, Clone)]
pub struct AddApiKeyFlow {
    pub full_key: String,
}

/// How adding an API key starts, given the drawn secret: the key is
/// `<prefix>_<secret>`, the record stores its hash for the user in the vault,
/// and the flow keeps the raw key; 500 where no secret could be drawn.
pub open spec fn add_api_key_start_spec(
    user_id: u128,
    vault_id: u128,
    name: String,
    key_prefix: String,
    expires_at: Option<Timestamp>,
    secret: Result<String, CryptoError>,
    started: Result<(AddApiKeyFlow, ApiKeyRecord), u16>,
) -> bool {
    match secret {
        Err(_) => started == Err::<(AddApiKeyFlow, ApiKeyRecord), u16>(INTERNAL_SERVER_ERROR),
        Ok(sec) => started matches Ok((flow, record)) && {
            &&& flow.full_key@ == prefixed_key(key_prefix@, sec@)
            &&& record.hash@ == secret_hash(flow.full_key@)
            &&& record.user_id == user_id
            &&& record.name == name
            &&& record.key_prefix@ == key_prefix@
            &&& record.expires_at == expires_at
            &&& record.vault_id == vault_id
        },
    }
}

impl AddApiKeyFlow {
    /// Starts adding an API key made of the given secret.
    pub fn start_with(
        user_id: u128,
        vault_id: u128,
        name: String,
        key_prefix: String,
        expires_at: Option<Timestamp>,
        secret: Result<String, CryptoError>,
    ) -> (started: Result<(AddApiKeyFlow, ApiKeyRecord), u16>)
        ensures
            add_api_key_start_spec(user_id, vault_id, name, key_prefix, expires_at, secret, started),
    {
        let sec = match secret {
            Ok(sec) => sec,
            Err(_) => return Err(INTERNAL_SERVER_ERROR),
        };
        let key = api_key_from_secret(key_prefix.clone(), sec.as_str());
        let record = ApiKeyRecord { user_id, name, key_prefix, hash: key.hash, expires_at, vault_id };
        Ok((AddApiKeyFlow { full_key: key.full_key }, record))
    }

    /// Starts adding an API key made of a fresh random secret.
    pub fn start(
        user_id: u128,
        vault_id: u128,
        name: String,
        key_prefix: String,
        expires_at: Option<Timestamp>,
    ) -> (started: Result<(AddApiKeyFlow, ApiKeyRecord), u16>)
        ensures
            exists|secret: Result<String, CryptoError>|
                #[trigger] drawn_secret(secret) && add_api_key_start_spec(
                    user_id,
                    vault_id,
                    name,
                    key_prefix,
                    expires_at,
                    secret,
                    started,
                ),
    {
        let secret = generate_secret();
        let started = Self::start_with(user_id, vault_id, name, key_prefix, expires_at, secret);
        assert(drawn_secret(secret));
        started
    }

    /// The answer, from the outcome of storing the record: the raw key whose
    /// hash was stored, 404 when the user is not in the vault, 500 on failure.
    pub fn finish(self, stored: ShlossResult<bool>) -> (answer: Result<AddApiKeyResponse, u16>)
        ensures
            answer == (match stored {
                Ok(true) => Ok(AddApiKeyResponse { key: self.full_key }),
                Ok(false) => Err(NOT_FOUND),
                Err(_) => Err(INTERNAL_SERVER_ERROR),
            }),
    {
        add_api_key_answer(stored, self.full_key)
    }
}

/// Adding an API key stores what the request asks for: it starts exactly when
/// a secret was drawn (else 500), and then the record carries the requested
/// user, vault, name, prefix and expiry, and the hash of the key
/// `<prefix>_<secret>` that the flow hands out.
pub proof fn law_added_api_key_keeps_the_request(
    user_id: u128,
    vault_id: u128,
    name: String,
    key_prefix: String,
    expires_at: Option<Timestamp>,
    secret: Result<String, CryptoError>,
    started: Result<(AddApiKeyFlow, ApiKeyRecord), u16>,
)
    requires
        add_api_key_start_spec(user_id, vault_id, name, key_prefix, expires_at, secret, started),
    ensures
        started is Ok <==> secret is Ok,
        secret is Err ==> started == Err::<(AddApiKeyFlow, ApiKeyRecord), u16>(INTERNAL_SERVER_ERROR),
        started matches Ok((flow, record)) ==> {
            &&& record.expires_at == expires_at
            &&& record.user_id == user_id
            &&& record.vault_id == vault_id
            &&& record.name == name
            &&& record.key_prefix@ == key_prefix@
            &&& flow.full_key@ == key_prefix@ + seq!['_'] + secret->Ok_0@
            &&& record.hash@ == secret_hash(flow.full_key@)
        },
{
}

} // verus!
