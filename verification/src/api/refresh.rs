//! Trading a refresh token for a new token and a new refresh token.
//!
//! The refresh token is looked up by its hash in the service's vault; it is
//! rotated in place (a new hash, and a lifetime equal to the old one counted
//! from now); then the requested token is issued for the refresh token's user
//! and session.

use std::collections::HashMap;

use vstd::prelude::*;

use crate::crypto::{drawn_secret, generate_secret, hash_secret, secret_hash, GeneratedToken};
use crate::error::CryptoError;
use crate::server::INTERNAL_SERVER_ERROR;
use crate::time::{rotation_expiry, Timestamp};
use crate::types::{RefreshRequest, RefreshResponse, TokenType};

verus! {

/// Where a refresh stands.
#[derive(Debug)]
pub enum RefreshStage {
    /// Waiting for the refresh token to be looked up.
    AwaitToken { token_type: TokenType },
    /// Waiting for the refresh token's issue and expiry times.
    AwaitTimes { token_id: u128, new_raw: String, new_hash: String, token_type: TokenType },
    /// Waiting for the refresh token to be rotated.
    AwaitRotation { new_raw: String, token_type: TokenType },
    /// Waiting for the JWT to be signed.
    AwaitJwt { new_raw: String },
    /// Waiting for the opaque token to be stored.
    AwaitOpaqueStored { new_raw: String, token_raw: String },
    /// The refresh is over.
    Finished,
}

/// A refresh in progress, in the vault of the calling service.
#[derive(Debug)]
pub struct RefreshFlow {
    pub vault_id: u128,
    pub stage: RefreshStage,
}

/// The next operation of a refresh.
#[derive(Debug)]
pub enum RefreshAction {
    /// Look up the id of the unrevoked, unexpired refresh token with this hash
    /// in the vault; answer `TokenFound`.
    FindRefreshToken { hash: String, vault_id: u128 },
    /// Read when the refresh token was issued and when it expires, and the
    /// current time; answer `Times`.
    FetchTimes { token_id: u128 },
    /// Give the refresh token, if it is still unrevoked and unexpired, this
    /// hash and these times; answer `Rotated`.
    Rotate { token_id: u128, hash: String, issued_at: Timestamp, expires_at: Timestamp },
    /// Sign a JWT for the user with these claims; answer `JwtSigned`.
    SignJwt { user_id: u128, claims: HashMap<String, serde_json::Value> },
    /// Store an opaque token by its hash; answer `Done`.
    StoreOpaqueToken { hash: String, user_id: u128, session_id: u128, expires_at: Timestamp },
    /// The refresh is over: the answer, or the status of a failure.
    Respond(Result<RefreshResponse, u16>),
}

/// The outcome of the last operation.
#[derive(Debug)]
pub enum RefreshEvent {
    TokenFound(Option<u128>),
    Times { issued_at: Timestamp, expires_at: Timestamp, now: Timestamp },
    /// The user and session of the rotated token, if the rotation happened.
    Rotated(Option<(u128, u128)>),
    JwtSigned(String),
    Done,
    Failed,
}

impl RefreshFlow {
    /// A pending new refresh token's stored hash is the hash of its raw value.
    pub open spec fn wf(self) -> bool {
        self.stage matches RefreshStage::AwaitTimes { new_raw, new_hash, .. } ==> new_hash@
            == secret_hash(new_raw@)
    }
}

/// `post` and `action` end the refresh with `answer`.
pub open spec fn responds(
    pre: RefreshFlow,
    post: RefreshFlow,
    action: RefreshAction,
    answer: Result<RefreshResponse, u16>,
) -> bool {
    &&& post.vault_id == pre.vault_id
    &&& post.stage is Finished
    &&& action == RefreshAction::Respond(answer)
}

/// The failure answer.
pub open spec fn failed_answer() -> Result<RefreshResponse, u16> {
    Err(INTERNAL_SERVER_ERROR)
}

/// One step of a refresh, given a freshly drawn secret (used for the new
/// refresh token, and for an opaque token) or the failure to draw one.
pub open spec fn refresh_transition(
    pre: RefreshFlow,
    event: RefreshEvent,
    secret: Result<String, CryptoError>,
    post: RefreshFlow,
    action: RefreshAction,
) -> bool {
    match pre.stage {
        RefreshStage::AwaitToken { token_type } => match event {
            RefreshEvent::TokenFound(None) => responds(pre, post, action, Ok(RefreshResponse::Invalid)),
            RefreshEvent::TokenFound(Some(token_id)) => match secret {
                Err(_) => responds(pre, post, action, failed_answer()),
                Ok(raw) => {
                    &&& post.vault_id == pre.vault_id
                    &&& post.stage matches RefreshStage::AwaitTimes { token_id: id, new_raw, new_hash, token_type: t }
                    &&& id == token_id && t == token_type && new_raw == raw && new_hash@ == secret_hash(raw@)
                    &&& action == RefreshAction::FetchTimes { token_id }
                },
            },
            _ => responds(pre, post, action, failed_answer()),
        },
        RefreshStage::AwaitTimes { token_id, new_raw, new_hash, token_type } => match event {
            RefreshEvent::Times { issued_at, expires_at, now } => match rotation_expiry_spec(issued_at, expires_at, now) {
                None => responds(pre, post, action, failed_answer()),
                Some(new_expiry) => {
                    &&& post.vault_id == pre.vault_id
                    &&& post.stage == RefreshStage::AwaitRotation { new_raw, token_type }
                    &&& action == RefreshAction::Rotate { token_id, hash: new_hash, issued_at: now, expires_at: new_expiry }
                },
            },
            _ => responds(pre, post, action, failed_answer()),
        },
        RefreshStage::AwaitRotation { new_raw, token_type } => match event {
            RefreshEvent::Rotated(None) => responds(pre, post, action, Ok(RefreshResponse::Invalid)),
            RefreshEvent::Rotated(Some((user_id, session_id))) => match token_type {
                TokenType::Jwt { claims } => {
                    &&& post.vault_id == pre.vault_id
                    &&& post.stage == RefreshStage::AwaitJwt { new_raw }
                    &&& action == RefreshAction::SignJwt { user_id, claims }
                },
                TokenType::Opaque { expires_at } => match secret {
                    Err(_) => responds(pre, post, action, failed_answer()),
                    Ok(raw) => {
                        &&& post.vault_id == pre.vault_id
                        &&& post.stage matches RefreshStage::AwaitOpaqueStored { new_raw: r, token_raw }
                        &&& r == new_raw && token_raw == raw
                        &&& action matches RefreshAction::StoreOpaqueToken { hash, user_id: u, session_id: s, expires_at: e }
                        &&& hash@ == secret_hash(raw@) && u == user_id && s == session_id && e == expires_at
                    },
                },
            },
            _ => responds(pre, post, action, failed_answer()),
        },
        RefreshStage::AwaitJwt { new_raw } => match event {
            RefreshEvent::JwtSigned(jwt) => responds(
                pre,
                post,
                action,
                Ok(RefreshResponse::Valid { new_refresh: new_raw, new_token: jwt }),
            ),
            _ => responds(pre, post, action, failed_answer()),
        },
        RefreshStage::AwaitOpaqueStored { new_raw, token_raw } => match event {
            RefreshEvent::Done => responds(
                pre,
                post,
                action,
                Ok(RefreshResponse::Valid { new_refresh: new_raw, new_token: token_raw }),
            ),
            _ => responds(pre, post, action, failed_answer()),
        },
        RefreshStage::Finished => responds(pre, post, action, failed_answer()),
    }
}

/// The specification of `rotation_expiry`.
pub open spec fn rotation_expiry_spec(issued_at: Timestamp, expires_at: Timestamp, now: Timestamp) -> Option<Timestamp> {
    if i64::MIN <= now.micros + (expires_at.micros - issued_at.micros) <= i64::MAX {
        Some(Timestamp { micros: (now.micros + (expires_at.micros - issued_at.micros)) as i64 })
    } else {
        None
    }
}

impl RefreshFlow {
    /// Starts a refresh in the vault `vault_id` by looking the refresh token up
    /// by its hash.
    pub fn start(request: RefreshRequest, vault_id: u128) -> (started: (RefreshFlow, RefreshAction))
        ensures
            started.0 == (RefreshFlow { vault_id, stage: RefreshStage::AwaitToken { token_type: request.token_type } }),
            started.0.wf(),
            started.1 matches RefreshAction::FindRefreshToken { hash, vault_id: v } && hash@ == secret_hash(request.refresh_token@) && v == vault_id,
    {
        let hash = hash_secret(request.refresh_token.as_str());
        (
            RefreshFlow { vault_id, stage: RefreshStage::AwaitToken { token_type: request.token_type } },
            RefreshAction::FindRefreshToken { hash, vault_id },
        )
    }

    fn respond(vault_id: u128, answer: Result<RefreshResponse, u16>) -> (next: (RefreshFlow, RefreshAction))
        ensures
            next.0.vault_id == vault_id,
            next.0.stage is Finished,
            next.1 == RefreshAction::Respond(answer),
    {
        (RefreshFlow { vault_id, stage: RefreshStage::Finished }, RefreshAction::Respond(answer))
    }

    /// Takes the outcome of the last operation and yields the next one; a
    /// token issued in this step is made of the secret drawn for it.
    pub fn step(self, event: RefreshEvent) -> (next: (RefreshFlow, RefreshAction))
        ensures
            exists|secret: Result<String, CryptoError>|
                #[trigger] drawn_secret(secret) && refresh_transition(self, event, secret, next.0, next.1),
            next.0.wf(),
    {
        let secret = generate_secret();
        let next = self.step_with(event, secret);
        assert(drawn_secret(secret));
        next
    }

    /// Takes the outcome of the last operation and a freshly drawn secret (or
    /// the failure to draw one), and yields the next operation. The secret
    /// becomes the new refresh token when the old one is found, and the opaque
    /// token when one is issued.
    pub fn step_with(self, event: RefreshEvent, secret: Result<String, CryptoError>) -> (next: (
        RefreshFlow,
        RefreshAction,
    ))
        ensures
            refresh_transition(self, event, secret, next.0, next.1),
            next.0.wf(),
    {
        let vault_id = self.vault_id;
        match self.stage {
            RefreshStage::AwaitToken { token_type } => match event {
                RefreshEvent::TokenFound(None) => Self::respond(vault_id, Ok(RefreshResponse::Invalid)),
                RefreshEvent::TokenFound(Some(token_id)) => match secret {
                    Err(_) => Self::respond(vault_id, Err(INTERNAL_SERVER_ERROR)),
                    Ok(raw) => {
                        let fresh = GeneratedToken::from_raw(raw);
                        (
                        RefreshFlow {
                            vault_id,
                            stage: RefreshStage::AwaitTimes { token_id, new_raw: fresh.raw, new_hash: fresh.hash, token_type },
                        },
                        RefreshAction::FetchTimes { token_id },
                        )
                    },
                },
                _ => Self::respond(vault_id, Err(INTERNAL_SERVER_ERROR)),
            },
            RefreshStage::AwaitTimes { token_id, new_raw, new_hash, token_type } => match event {
                RefreshEvent::Times { issued_at, expires_at, now } => match rotation_expiry(issued_at, expires_at, now) {
                    None => Self::respond(vault_id, Err(INTERNAL_SERVER_ERROR)),
                    Some(new_expiry) => (
                        RefreshFlow { vault_id, stage: RefreshStage::AwaitRotation { new_raw, token_type } },
                        RefreshAction::Rotate { token_id, hash: new_hash, issued_at: now, expires_at: new_expiry },
                    ),
                },
                _ => Self::respond(vault_id, Err(INTERNAL_SERVER_ERROR)),
            },
            RefreshStage::AwaitRotation { new_raw, token_type } => match event {
                RefreshEvent::Rotated(None) => Self::respond(vault_id, Ok(RefreshResponse::Invalid)),
                RefreshEvent::Rotated(Some((user_id, session_id))) => match token_type {
                    TokenType::Jwt { claims } => (
                        RefreshFlow { vault_id, stage: RefreshStage::AwaitJwt { new_raw } },
                        RefreshAction::SignJwt { user_id, claims },
                    ),
                    TokenType::Opaque { expires_at } => match secret {
                        Err(_) => Self::respond(vault_id, Err(INTERNAL_SERVER_ERROR)),
                        Ok(raw) => {
                            let token = GeneratedToken::from_raw(raw);
                            (
                            RefreshFlow {
                                vault_id,
                                stage: RefreshStage::AwaitOpaqueStored { new_raw, token_raw: token.raw },
                            },
                            RefreshAction::StoreOpaqueToken { hash: token.hash, user_id, session_id, expires_at },
                            )
                        },
                    },
                },
                _ => Self::respond(vault_id, Err(INTERNAL_SERVER_ERROR)),
            },
            RefreshStage::AwaitJwt { new_raw } => match event {
                RefreshEvent::JwtSigned(jwt) => Self::respond(
                    vault_id,
                    Ok(RefreshResponse::Valid { new_refresh: new_raw, new_token: jwt }),
                ),
                _ => Self::respond(vault_id, Err(INTERNAL_SERVER_ERROR)),
            },
            RefreshStage::AwaitOpaqueStored { new_raw, token_raw } => match event {
                RefreshEvent::Done => Self::respond(
                    vault_id,
                    Ok(RefreshResponse::Valid { new_refresh: new_raw, new_token: token_raw }),
                ),
                _ => Self::respond(vault_id, Err(INTERNAL_SERVER_ERROR)),
            },
            RefreshStage::Finished => Self::respond(vault_id, Err(INTERNAL_SERVER_ERROR)),
        }
    }
}

/// A rotation keeps the refresh token's lifetime: the rotated token is issued
/// at the current time and expires as long after it as the old token expired
/// after its own issue. The new hash is the hash of the raw refresh token the
/// flow will hand out.
pub proof fn law_rotation_keeps_lifetime(
    pre: RefreshFlow,
    event: RefreshEvent,
    secret: Result<String, CryptoError>,
    post: RefreshFlow,
    action: RefreshAction,
)
    requires
        pre.wf(),
        refresh_transition(pre, event, secret, post, action),
        action is Rotate,
    ensures
        event matches RefreshEvent::Times { issued_at, expires_at, now } && action->Rotate_issued_at == now
            && action->Rotate_expires_at.micros - now.micros == expires_at.micros - issued_at.micros,
        post.stage matches RefreshStage::AwaitRotation { new_raw, .. } && action->Rotate_hash@ == secret_hash(new_raw@),
{
}

/// A refresh stays in the vault of the calling service, and a refresh token
/// that is not found (unknown, expired, revoked, or of another vault) or can no
/// longer be rotated is answered `Invalid`.
pub proof fn law_unknown_refresh_token_is_invalid(
    pre: RefreshFlow,
    event: RefreshEvent,
    secret: Result<String, CryptoError>,
    post: RefreshFlow,
    action: RefreshAction,
)
    requires
        refresh_transition(pre, event, secret, post, action),
    ensures
        post.vault_id == pre.vault_id,
        pre.stage is AwaitToken && event == RefreshEvent::TokenFound(None) ==> action == RefreshAction::Respond(Ok(RefreshResponse::Invalid)),
        pre.stage is AwaitRotation && event == RefreshEvent::Rotated(None) ==> action == RefreshAction::Respond(Ok(RefreshResponse::Invalid)),
{
}

/// The raw refresh token a refresh holds once it asked for the rotation.
pub open spec fn pending_refresh(flow: RefreshFlow) -> Option<String> {
    match flow.stage {
        RefreshStage::AwaitRotation { new_raw, .. } => Some(new_raw),
        RefreshStage::AwaitJwt { new_raw } => Some(new_raw),
        RefreshStage::AwaitOpaqueStored { new_raw, .. } => Some(new_raw),
        _ => None,
    }
}

/// The tokens a refresh hands out are the ones it stored: once the flow holds
/// the raw refresh token whose hash the rotation stored, it keeps holding it
/// until it answers, and a `Valid` answer carries exactly that raw value as the
/// new refresh token; an opaque token handed out is the one whose hash was
/// stored.
pub proof fn law_handed_out_tokens_are_stored(
    pre: RefreshFlow,
    event: RefreshEvent,
    secret: Result<String, CryptoError>,
    post: RefreshFlow,
    action: RefreshAction,
)
    requires
        refresh_transition(pre, event, secret, post, action),
    ensures
        pending_refresh(pre) matches Some(r) ==> (action matches RefreshAction::Respond(Ok(RefreshResponse::Valid { new_refresh, .. })) ==> new_refresh == r),
        pending_refresh(pre) matches Some(r) ==> (!(action is Respond) ==> pending_refresh(post) == Some(r)),
        action matches RefreshAction::StoreOpaqueToken { hash, .. } ==> (post.stage matches RefreshStage::AwaitOpaqueStored { token_raw, .. } && hash@ == secret_hash(token_raw@) && secret == Ok::<String, CryptoError>(token_raw)),
        action is FetchTimes ==> (post.stage matches RefreshStage::AwaitTimes { new_raw, new_hash, .. } && new_hash@ == secret_hash(new_raw@) && secret == Ok::<String, CryptoError>(new_raw)),
        pre.stage matches RefreshStage::AwaitOpaqueStored { token_raw, .. } ==> (action matches RefreshAction::Respond(Ok(RefreshResponse::Valid { new_token, .. })) ==> new_token == token_raw),
{
}

} // verus!
