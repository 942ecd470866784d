//! A user's login, as a sequence of decisions between database operations.
//!
//! The flow starts from the login request and the vault of the calling service.
//! Each step takes the outcome of the operation asked for last and yields the
//! next operation, until it finishes with the result of the login: the issued
//! tokens, `None` when the credentials are refused, or an error.

use std::collections::HashMap;

use vstd::prelude::*;

use crate::crypto::{
    argon2_check, drawn_secret, generate_secret, hash_secret, secret_hash, verify_password,
    GeneratedToken,
};
use crate::error::{CryptoError, DbError, ShlossError, ShlossResult};
use crate::time::Timestamp;
use crate::types::{Credentials, IssuedToken, LoginContext, LoginResult, RefreshTokenRequest, TokenType};

verus! {

/// What the login still has to do once the user is known: open a session from
/// this address and agent, then issue this token and maybe a refresh token.
#[derive(Debug)]
pub struct PendingIssue {
    pub ip_address: Option<ipnetwork::IpNetwork>,
    pub user_agent: Option<String>,
    pub token: TokenType,
    pub refresh: Option<RefreshTokenRequest>,
}

/// Where a login stands.
#[derive(Debug)]
pub enum LoginStage {
    /// Waiting for the user with the given username.
    AwaitUserByName { password: String, pending: PendingIssue },
    /// Waiting for the password hash of the user.
    AwaitPasswordHash { user_id: u128, password: String, pending: PendingIssue },
    /// Waiting for the user who holds the API key with this hash.
    AwaitUserByKey { key_hash: String, pending: PendingIssue },
    /// Waiting for the API key's use to be recorded.
    AwaitKeyMarked { user_id: u128, pending: PendingIssue },
    /// Waiting for the session to be opened.
    AwaitSession { user_id: u128, token: TokenType, refresh: Option<RefreshTokenRequest> },
    /// Waiting for the JWT to be signed.
    AwaitJwt { user_id: u128, session_id: u128, refresh: Option<RefreshTokenRequest> },
    /// Waiting for the opaque token to be stored.
    AwaitOpaqueStored {
        user_id: u128,
        session_id: u128,
        raw: String,
        refresh: Option<RefreshTokenRequest>,
    },
    /// Waiting for the refresh token to be stored.
    AwaitRefreshStored { user_id: u128, token: IssuedToken, raw: String },
    /// The login is over.
    Finished,
}

/// A login in progress, for the vault of the calling service.
#[derive(Debug)]
pub struct LoginFlow {
    pub vault_id: u128,
    pub stage: LoginStage,
}

/// The next operation of a login.
#[derive(Debug)]
pub enum LoginAction {
    /// Look up the user with this username in the vault; answer `User`.
    FindUserByUsername { username: String, vault_id: u128 },
    /// Look up the user's password hash in the vault; answer `PasswordHash`.
    FindPasswordHash { user_id: u128, vault_id: u128 },
    /// Look up the user holding an unrevoked, unexpired API key with this hash
    /// in the vault; answer `User`.
    FindUserByApiKey { key_hash: String, vault_id: u128 },
    /// Record that the API key with this hash was used; answer `Done`.
    MarkApiKeyUsed { key_hash: String },
    /// Open a session for the user; answer `SessionCreated`.
    CreateSession {
        user_id: u128,
        ip_address: Option<ipnetwork::IpNetwork>,
        user_agent: Option<String>,
    },
    /// Sign a JWT for the user with these claims; answer `JwtSigned`.
    SignJwt { user_id: u128, claims: HashMap<String, serde_json::Value> },
    /// Store an opaque token by its hash; answer `Done`.
    StoreOpaqueToken { hash: String, user_id: u128, session_id: u128, expires_at: Timestamp },
    /// Store a refresh token by its hash; answer `Done`.
    StoreRefreshToken { hash: String, user_id: u128, session_id: u128, expires_at: Timestamp },
    /// The login is over, with this result.
    Finish(ShlossResult<Option<LoginResult>>),
}

/// The outcome of the last operation.
#[derive(Debug)]
pub enum LoginEvent {
    User(Option<u128>),
    PasswordHash(Option<String>),
    SessionCreated(u128),
    JwtSigned(String),
    Done,
    Failed(ShlossError),
}

/// The error with which a flow ends when an outcome does not answer the
/// operation it asked for.
pub open spec fn out_of_order() -> ShlossError {
    ShlossError::Database(DbError::Other)
}

/// `post` and `action` end the flow with `result`.
pub open spec fn finishes(
    pre: LoginFlow,
    post: LoginFlow,
    action: LoginAction,
    result: ShlossResult<Option<LoginResult>>,
) -> bool {
    &&& post.vault_id == pre.vault_id
    &&& post.stage is Finished
    &&& action == LoginAction::Finish(result)
}

/// `post` waits for the storing of a fresh opaque token, which `action` stores
/// by the hash of the raw value that `post` keeps.
pub open spec fn stores_opaque(
    post: LoginFlow,
    action: LoginAction,
    user_id: u128,
    session_id: u128,
    expires_at: Timestamp,
    refresh: Option<RefreshTokenRequest>,
) -> bool {
    match post.stage {
        LoginStage::AwaitOpaqueStored { user_id: u, session_id: s, raw, refresh: r } => {
            &&& u == user_id
            &&& s == session_id
            &&& r == refresh
            &&& match action {
                LoginAction::StoreOpaqueToken { hash, user_id: u2, session_id: s2, expires_at: e } => {
                    &&& hash@ == secret_hash(raw@)
                    &&& u2 == user_id
                    &&& s2 == session_id
                    &&& e == expires_at
                },
                _ => false,
            }
        },
        _ => false,
    }
}

/// `post` waits for the storing of a fresh refresh token, which `action`
/// stores by the hash of the raw value that `post` keeps.
pub open spec fn stores_refresh(
    post: LoginFlow,
    action: LoginAction,
    user_id: u128,
    session_id: u128,
    token: IssuedToken,
    expires_at: Timestamp,
) -> bool {
    match post.stage {
        LoginStage::AwaitRefreshStored { user_id: u, token: t, raw } => {
            &&& u == user_id
            &&& t == token
            &&& match action {
                LoginAction::StoreRefreshToken { hash, user_id: u2, session_id: s2, expires_at: e } => {
                    &&& hash@ == secret_hash(raw@)
                    &&& u2 == user_id
                    &&& s2 == session_id
                    &&& e == expires_at
                },
                _ => false,
            }
        },
        _ => false,
    }
}

/// The step that follows the opening of a session: sign a JWT, or store the
/// drawn secret `secret` as the opaque token (by its hash) and keep its raw
/// value; when the draw failed, the login ends with that error.
pub open spec fn issue_step(
    pre: LoginFlow,
    user_id: u128,
    session_id: u128,
    token: TokenType,
    refresh: Option<RefreshTokenRequest>,
    secret: Result<String, CryptoError>,
    post: LoginFlow,
    action: LoginAction,
) -> bool {
    &&& post.vault_id == pre.vault_id
    &&& match token {
        TokenType::Jwt { claims } => {
            &&& post.stage == LoginStage::AwaitJwt { user_id, session_id, refresh }
            &&& action == LoginAction::SignJwt { user_id, claims }
        },
        TokenType::Opaque { expires_at } => match secret {
            Err(e) => finishes(pre, post, action, Err(ShlossError::Crypto(e))),
            Ok(raw) => {
                &&& stores_opaque(post, action, user_id, session_id, expires_at, refresh)
                &&& post.stage->AwaitOpaqueStored_raw == raw
            },
        },
    }
}

/// The step that follows the issuing of the token: finish, or store the drawn
/// secret `secret` as the refresh token (by its hash) and keep its raw value;
/// when the draw failed, the login ends with that error.
pub open spec fn refresh_step(
    pre: LoginFlow,
    user_id: u128,
    session_id: u128,
    token: IssuedToken,
    refresh: Option<RefreshTokenRequest>,
    secret: Result<String, CryptoError>,
    post: LoginFlow,
    action: LoginAction,
) -> bool {
    match refresh {
        None => finishes(
            pre,
            post,
            action,
            Ok(Some(LoginResult { user_id, token, refresh_token: None })),
        ),
        Some(req) => match secret {
            Err(e) => finishes(pre, post, action, Err(ShlossError::Crypto(e))),
            Ok(raw) => {
                &&& post.vault_id == pre.vault_id
                &&& stores_refresh(post, action, user_id, session_id, token, req.expires_at)
                &&& post.stage->AwaitRefreshStored_raw == raw
            },
        },
    }
}

/// One step of a login: from where it stands, the outcome of the last
/// operation and a freshly drawn secret (used where a token is to be issued),
/// to where it stands next and the next operation.
pub open spec fn login_transition(
    pre: LoginFlow,
    event: LoginEvent,
    secret: Result<String, CryptoError>,
    post: LoginFlow,
    action: LoginAction,
) -> bool {
    match event {
        LoginEvent::Failed(e) => match pre.stage {
            LoginStage::Finished => finishes(pre, post, action, Err(out_of_order())),
            _ => finishes(pre, post, action, Err(e)),
        },
        _ => match pre.stage {
            LoginStage::AwaitUserByName { password, pending } => match event {
                LoginEvent::User(None) => finishes(pre, post, action, Ok(None)),
                LoginEvent::User(Some(user_id)) => {
                    &&& post.vault_id == pre.vault_id
                    &&& post.stage == LoginStage::AwaitPasswordHash { user_id, password, pending }
                    &&& action == LoginAction::FindPasswordHash { user_id, vault_id: pre.vault_id }
                },
                _ => finishes(pre, post, action, Err(out_of_order())),
            },
            LoginStage::AwaitPasswordHash { user_id, password, pending } => match event {
                LoginEvent::PasswordHash(None) => finishes(pre, post, action, Ok(None)),
                LoginEvent::PasswordHash(Some(hash)) => match argon2_check(password@, hash@) {
                    None => finishes(
                        pre,
                        post,
                        action,
                        Err(ShlossError::Crypto(CryptoError::PasswordVerify)),
                    ),
                    Some(false) => finishes(pre, post, action, Ok(None)),
                    Some(true) => {
                        &&& post.vault_id == pre.vault_id
                        &&& post.stage == LoginStage::AwaitSession {
                            user_id,
                            token: pending.token,
                            refresh: pending.refresh,
                        }
                        &&& action == LoginAction::CreateSession {
                            user_id,
                            ip_address: pending.ip_address,
                            user_agent: pending.user_agent,
                        }
                    },
                },
                _ => finishes(pre, post, action, Err(out_of_order())),
            },
            LoginStage::AwaitUserByKey { key_hash, pending } => match event {
                LoginEvent::User(None) => finishes(pre, post, action, Ok(None)),
                LoginEvent::User(Some(user_id)) => {
                    &&& post.vault_id == pre.vault_id
                    &&& post.stage == LoginStage::AwaitKeyMarked { user_id, pending }
                    &&& action == LoginAction::MarkApiKeyUsed { key_hash }
                },
                _ => finishes(pre, post, action, Err(out_of_order())),
            },
            LoginStage::AwaitKeyMarked { user_id, pending } => match event {
                LoginEvent::Done => {
                    &&& post.vault_id == pre.vault_id
                    &&& post.stage == LoginStage::AwaitSession {
                        user_id,
                        token: pending.token,
                        refresh: pending.refresh,
                    }
                    &&& action == LoginAction::CreateSession {
                        user_id,
                        ip_address: pending.ip_address,
                        user_agent: pending.user_agent,
                    }
                },
                _ => finishes(pre, post, action, Err(out_of_order())),
            },
            LoginStage::AwaitSession { user_id, token, refresh } => match event {
                LoginEvent::SessionCreated(session_id) => issue_step(
                    pre,
                    user_id,
                    session_id,
                    token,
                    refresh,
                    secret,
                    post,
                    action,
                ),
                _ => finishes(pre, post, action, Err(out_of_order())),
            },
            LoginStage::AwaitJwt { user_id, session_id, refresh } => match event {
                LoginEvent::JwtSigned(jwt) => refresh_step(
                    pre,
                    user_id,
                    session_id,
                    IssuedToken::Jwt(jwt),
                    refresh,
                    secret,
                    post,
                    action,
                ),
                _ => finishes(pre, post, action, Err(out_of_order())),
            },
            LoginStage::AwaitOpaqueStored { user_id, session_id, raw, refresh } => match event {
                LoginEvent::Done => refresh_step(
                    pre,
                    user_id,
                    session_id,
                    IssuedToken::Opaque(raw),
                    refresh,
                    secret,
                    post,
                    action,
                ),
                _ => finishes(pre, post, action, Err(out_of_order())),
            },
            LoginStage::AwaitRefreshStored { user_id, token, raw } => match event {
                LoginEvent::Done => finishes(
                    pre,
                    post,
                    action,
                    Ok(Some(LoginResult { user_id, token, refresh_token: Some(raw) })),
                ),
                _ => finishes(pre, post, action, Err(out_of_order())),
            },
            LoginStage::Finished => finishes(pre, post, action, Err(out_of_order())),
        },
    }
}

impl LoginFlow {
    /// Starts a login in the vault `vault_id`: password credentials look the
    /// user up by username, API-key credentials by the hash of the full key.
    pub fn start(context: LoginContext, vault_id: u128) -> (started: (LoginFlow, LoginAction))
        ensures
            started.0.vault_id == vault_id,
            match context.credentials {
                Credentials::Password { username, password } => {
                    &&& started.0.stage == LoginStage::AwaitUserByName {
                        password,
                        pending: PendingIssue {
                            ip_address: context.ip_address,
                            user_agent: context.user_agent,
                            token: context.token,
                            refresh: context.refresh,
                        },
                    }
                    &&& started.1 == LoginAction::FindUserByUsername { username, vault_id }
                },
                Credentials::ApiKey { full_key } => {
                    &&& started.0.stage matches LoginStage::AwaitUserByKey { key_hash, pending }
                        && key_hash@ == secret_hash(full_key@) && pending == PendingIssue {
                        ip_address: context.ip_address,
                        user_agent: context.user_agent,
                        token: context.token,
                        refresh: context.refresh,
                    }
                    &&& started.1 matches LoginAction::FindUserByApiKey { key_hash: h, vault_id: v }
                        && h@ == secret_hash(full_key@) && v == vault_id
                },
            },
    {
        let pending = PendingIssue {
            ip_address: context.ip_address,
            user_agent: context.user_agent,
            token: context.token,
            refresh: context.refresh,
        };
        match context.credentials {
            Credentials::Password { username, password } => (
                LoginFlow { vault_id, stage: LoginStage::AwaitUserByName { password, pending } },
                LoginAction::FindUserByUsername { username, vault_id },
            ),
            Credentials::ApiKey { full_key } => {
                let key_hash = hash_secret(full_key.as_str());
                let query_hash = key_hash.clone();
                (
                    LoginFlow { vault_id, stage: LoginStage::AwaitUserByKey { key_hash, pending } },
                    LoginAction::FindUserByApiKey { key_hash: query_hash, vault_id },
                )
            },
        }
    }

    fn finish(vault_id: u128, result: ShlossResult<Option<LoginResult>>) -> (next: (
        LoginFlow,
        LoginAction,
    ))
        ensures
            next.0.vault_id == vault_id,
            next.0.stage is Finished,
            next.1 == LoginAction::Finish(result),
    {
        (LoginFlow { vault_id, stage: LoginStage::Finished }, LoginAction::Finish(result))
    }

    fn issue(
        vault_id: u128,
        user_id: u128,
        session_id: u128,
        token: TokenType,
        refresh: Option<RefreshTokenRequest>,
        secret: Result<String, CryptoError>,
    ) -> (next: (LoginFlow, LoginAction))
        ensures
            issue_step(
                LoginFlow { vault_id, stage: LoginStage::Finished },
                user_id,
                session_id,
                token,
                refresh,
                secret,
                next.0,
                next.1,
            ),
    {
        match token {
            TokenType::Jwt { claims } => (
                LoginFlow { vault_id, stage: LoginStage::AwaitJwt { user_id, session_id, refresh } },
                LoginAction::SignJwt { user_id, claims },
            ),
            TokenType::Opaque { expires_at } => match secret {
                Err(e) => Self::finish(vault_id, Err(ShlossError::Crypto(e))),
                Ok(raw) => {
                    let generated = GeneratedToken::from_raw(raw);
                    (
                    LoginFlow {
                        vault_id,
                        stage: LoginStage::AwaitOpaqueStored {
                            user_id,
                            session_id,
                            raw: generated.raw,
                            refresh,
                        },
                    },
                    LoginAction::StoreOpaqueToken {
                        hash: generated.hash,
                        user_id,
                        session_id,
                        expires_at,
                    },
                    )
                },
            },
        }
    }

    fn refresh(
        vault_id: u128,
        user_id: u128,
        session_id: u128,
        token: IssuedToken,
        refresh: Option<RefreshTokenRequest>,
        secret: Result<String, CryptoError>,
    ) -> (next: (LoginFlow, LoginAction))
        ensures
            refresh_step(
                LoginFlow { vault_id, stage: LoginStage::Finished },
                user_id,
                session_id,
                token,
                refresh,
                secret,
                next.0,
                next.1,
            ),
    {
        match refresh {
            None => Self::finish(
                vault_id,
                Ok(Some(LoginResult { user_id, token, refresh_token: None })),
            ),
            Some(req) => match secret {
                Err(e) => Self::finish(vault_id, Err(ShlossError::Crypto(e))),
                Ok(raw) => {
                    let generated = GeneratedToken::from_raw(raw);
                    (
                    LoginFlow {
                        vault_id,
                        stage: LoginStage::AwaitRefreshStored { user_id, token, raw: generated.raw },
                    },
                    LoginAction::StoreRefreshToken {
                        hash: generated.hash,
                        user_id,
                        session_id,
                        expires_at: req.expires_at,
                    },
                    )
                },
            },
        }
    }

    /// Takes the outcome of the last operation and yields the next one; a
    /// token issued in this step is made of the secret drawn for it.
    pub fn step(self, event: LoginEvent) -> (next: (LoginFlow, LoginAction))
        ensures
            exists|secret: Result<String, CryptoError>|
                #[trigger] drawn_secret(secret) && login_transition(self, event, secret, next.0, next.1),
    {
        let secret = generate_secret();
        let next = self.step_with(event, secret);
        assert(drawn_secret(secret));
        next
    }

    /// Takes the outcome of the last operation and a freshly drawn secret (or
    /// the failure to draw one), and yields the next operation. The secret is
    /// used only where an opaque token or a refresh token is issued.
    pub fn step_with(self, event: LoginEvent, secret: Result<String, CryptoError>) -> (next: (
        LoginFlow,
        LoginAction,
    ))
        ensures
            login_transition(self, event, secret, next.0, next.1),
    {
        let vault_id = self.vault_id;
        if let LoginEvent::Failed(e) = event {
            return match self.stage {
                LoginStage::Finished => Self::finish(vault_id, Err(ShlossError::Database(DbError::Other))),
                _ => Self::finish(vault_id, Err(e)),
            };
        }
        match self.stage {
            LoginStage::AwaitUserByName { password, pending } => match event {
                LoginEvent::User(None) => Self::finish(vault_id, Ok(None)),
                LoginEvent::User(Some(user_id)) => (
                    LoginFlow { vault_id, stage: LoginStage::AwaitPasswordHash { user_id, password, pending } },
                    LoginAction::FindPasswordHash { user_id, vault_id },
                ),
                _ => Self::finish(vault_id, Err(ShlossError::Database(DbError::Other))),
            },
            LoginStage::AwaitPasswordHash { user_id, password, pending } => match event {
                LoginEvent::PasswordHash(None) => Self::finish(vault_id, Ok(None)),
                LoginEvent::PasswordHash(Some(hash)) => match verify_password(password.as_str(), hash.as_str()) {
                    Err(e) => Self::finish(vault_id, Err(ShlossError::Crypto(e))),
                    Ok(false) => Self::finish(vault_id, Ok(None)),
                    Ok(true) => (
                        LoginFlow {
                            vault_id,
                            stage: LoginStage::AwaitSession {
                                user_id,
                                token: pending.token,
                                refresh: pending.refresh,
                            },
                        },
                        LoginAction::CreateSession {
                            user_id,
                            ip_address: pending.ip_address,
                            user_agent: pending.user_agent,
                        },
                    ),
                },
                _ => Self::finish(vault_id, Err(ShlossError::Database(DbError::Other))),
            },
            LoginStage::AwaitUserByKey { key_hash, pending } => match event {
                LoginEvent::User(None) => Self::finish(vault_id, Ok(None)),
                LoginEvent::User(Some(user_id)) => (
                    LoginFlow { vault_id, stage: LoginStage::AwaitKeyMarked { user_id, pending } },
                    LoginAction::MarkApiKeyUsed { key_hash },
                ),
                _ => Self::finish(vault_id, Err(ShlossError::Database(DbError::Other))),
            },
            LoginStage::AwaitKeyMarked { user_id, pending } => match event {
                LoginEvent::Done => (
                    LoginFlow {
                        vault_id,
                        stage: LoginStage::AwaitSession {
                            user_id,
                            token: pending.token,
                            refresh: pending.refresh,
                        },
                    },
                    LoginAction::CreateSession {
                        user_id,
                        ip_address: pending.ip_address,
                        user_agent: pending.user_agent,
                    },
                ),
                _ => Self::finish(vault_id, Err(ShlossError::Database(DbError::Other))),
            },
            LoginStage::AwaitSession { user_id, token, refresh } => match event {
                LoginEvent::SessionCreated(session_id) => Self::issue(
                    vault_id,
                    user_id,
                    session_id,
                    token,
                    refresh,
                    secret,
                ),
                _ => Self::finish(vault_id, Err(ShlossError::Database(DbError::Other))),
            },
            LoginStage::AwaitJwt { user_id, session_id, refresh } => match event {
                LoginEvent::JwtSigned(jwt) => Self::refresh(
                    vault_id,
                    user_id,
                    session_id,
                    IssuedToken::Jwt(jwt),
                    refresh,
                    secret,
                ),
                _ => Self::finish(vault_id, Err(ShlossError::Database(DbError::Other))),
            },
            LoginStage::AwaitOpaqueStored { user_id, session_id, raw, refresh } => match event {
                LoginEvent::Done => Self::refresh(
                    vault_id,
                    user_id,
                    session_id,
                    IssuedToken::Opaque(raw),
                    refresh,
                    secret,
                ),
                _ => Self::finish(vault_id, Err(ShlossError::Database(DbError::Other))),
            },
            LoginStage::AwaitRefreshStored { user_id, token, raw } => match event {
                LoginEvent::Done => Self::finish(
                    vault_id,
                    Ok(Some(LoginResult { user_id, token, refresh_token: Some(raw) })),
                ),
                _ => Self::finish(vault_id, Err(ShlossError::Database(DbError::Other))),
            },
            LoginStage::Finished => Self::finish(vault_id, Err(ShlossError::Database(DbError::Other))),
        }
    }
}

/// A login stays in the vault of the calling service: every step keeps the
/// flow's vault, and every lookup of a user or a credential is scoped to it.
pub proof fn law_login_is_scoped_to_vault(
    pre: LoginFlow,
    event: LoginEvent,
    secret: Result<String, CryptoError>,
    post: LoginFlow,
    action: LoginAction,
)
    requires
        login_transition(pre, event, secret, post, action),
    ensures
        post.vault_id == pre.vault_id,
        action matches LoginAction::FindUserByUsername { vault_id, .. } ==> vault_id == pre.vault_id,
        action matches LoginAction::FindPasswordHash { vault_id, .. } ==> vault_id == pre.vault_id,
        action matches LoginAction::FindUserByApiKey { vault_id, .. } ==> vault_id == pre.vault_id,
{
}

/// A session is opened only for a user whose credentials were checked: either
/// the password matched the user's stored hash, or the user's API key was
/// found (and its use recorded).
pub proof fn law_session_needs_verified_credentials(
    pre: LoginFlow,
    event: LoginEvent,
    secret: Result<String, CryptoError>,
    post: LoginFlow,
    action: LoginAction,
)
    requires
        login_transition(pre, event, secret, post, action),
        action is CreateSession,
    ensures
        ({
            &&& pre.stage matches LoginStage::AwaitPasswordHash { user_id, password, .. }
            &&& user_id == action->CreateSession_user_id
            &&& event matches LoginEvent::PasswordHash(Some(hash))
            &&& argon2_check(password@, hash@) == Some(true)
        }) || ({
            &&& pre.stage matches LoginStage::AwaitKeyMarked { user_id, .. }
            &&& user_id == action->CreateSession_user_id
            &&& event is Done
        }),
{
}

/// Refused credentials are answered alike: an unknown username, a user without
/// a password, a wrong password and an unknown API key all end the login with
/// no result.
pub proof fn law_refusals_are_alike(
    pre: LoginFlow,
    event: LoginEvent,
    secret: Result<String, CryptoError>,
    post: LoginFlow,
    action: LoginAction,
)
    requires
        login_transition(pre, event, secret, post, action),
    ensures
        pre.stage is AwaitUserByName && event == LoginEvent::User(None) ==> action
            == LoginAction::Finish(Ok(None)),
        pre.stage is AwaitUserByKey && event == LoginEvent::User(None) ==> action
            == LoginAction::Finish(Ok(None)),
        pre.stage is AwaitPasswordHash && event == LoginEvent::PasswordHash(None) ==> action
            == LoginAction::Finish(Ok(None)),
        pre.stage matches LoginStage::AwaitPasswordHash { password, .. } ==> (
        event matches LoginEvent::PasswordHash(Some(hash)) ==> (argon2_check(password@, hash@)
            == Some(false) ==> action == LoginAction::Finish(Ok(None)))),
{
}

/// The tokens a login hands out are the ones it stored: a stored token is the
/// drawn secret, stored by its hash while the flow keeps its raw value, and the
/// result carries exactly the kept raw values, as the token and as the refresh
/// token.
pub proof fn law_handed_out_tokens_are_stored(
    pre: LoginFlow,
    event: LoginEvent,
    secret: Result<String, CryptoError>,
    post: LoginFlow,
    action: LoginAction,
)
    requires
        login_transition(pre, event, secret, post, action),
    ensures
        action matches LoginAction::StoreOpaqueToken { hash, .. } ==> (post.stage matches LoginStage::AwaitOpaqueStored { raw, .. } && hash@ == secret_hash(raw@) && secret == Ok::<String, CryptoError>(raw)),
        action matches LoginAction::StoreRefreshToken { hash, .. } ==> (post.stage matches LoginStage::AwaitRefreshStored { raw, .. } && hash@ == secret_hash(raw@) && secret == Ok::<String, CryptoError>(raw)),
        pre.stage matches LoginStage::AwaitOpaqueStored { raw, .. } ==> (action matches LoginAction::Finish(Ok(Some(r))) ==> r.token == IssuedToken::Opaque(raw)),
        pre.stage matches LoginStage::AwaitOpaqueStored { raw, .. } ==> (action is StoreRefreshToken ==> (post.stage matches LoginStage::AwaitRefreshStored { token, .. } && token == IssuedToken::Opaque(raw))),
        pre.stage matches LoginStage::AwaitRefreshStored { token, raw, .. } ==> (action matches LoginAction::Finish(Ok(Some(r))) ==> r.token == token && r.refresh_token == Some(raw)),
{
}

/// Whether a username exists is not revealed: a login that finds no user with
/// the username and a login whose password does not match the user's stored
/// hash take the same next step, and end with no result.
pub proof fn law_unknown_user_and_wrong_password_end_alike(
    unknown: LoginFlow,
    secret_a: Result<String, CryptoError>,
    post_a: LoginFlow,
    action_a: LoginAction,
    wrong: LoginFlow,
    stored_hash: String,
    secret_b: Result<String, CryptoError>,
    post_b: LoginFlow,
    action_b: LoginAction,
)
    requires
        unknown.stage is AwaitUserByName,
        login_transition(unknown, LoginEvent::User(None), secret_a, post_a, action_a),
        (wrong.stage matches LoginStage::AwaitPasswordHash { password, .. } && argon2_check(password@, stored_hash@) == Some(false)),
        login_transition(wrong, LoginEvent::PasswordHash(Some(stored_hash)), secret_b, post_b, action_b),
    ensures
        action_a == action_b,
        action_a == LoginAction::Finish(Ok(None)),
        post_a.stage is Finished && post_b.stage is Finished,
{
}

/// A refresh token that the login asks for is issued, whatever the kind of the
/// token: the request is carried unchanged from the start up to the issuing of
/// the token; once the token is issued (a JWT signed, or an opaque token
/// stored), a requested refresh token is stored for the same user and session
/// with the requested expiry (unless no secret could be drawn, which ends the
/// login with that error), and the login's result then carries it; without a
/// request the login ends with the token and no refresh token.
pub proof fn law_requested_refresh_token_is_issued(
    pre: LoginFlow,
    event: LoginEvent,
    secret: Result<String, CryptoError>,
    post: LoginFlow,
    action: LoginAction,
)
    requires
        login_transition(pre, event, secret, post, action),
    ensures
        pre.stage matches LoginStage::AwaitPasswordHash { pending, .. } ==> (post.stage matches LoginStage::AwaitSession { refresh, .. } ==> refresh == pending.refresh),
        pre.stage matches LoginStage::AwaitKeyMarked { pending, .. } ==> (post.stage matches LoginStage::AwaitSession { refresh, .. } ==> refresh == pending.refresh),
        pre.stage matches LoginStage::AwaitSession { refresh, .. } ==> (post.stage matches LoginStage::AwaitJwt { refresh: r, .. } ==> r == refresh),
        pre.stage matches LoginStage::AwaitSession { refresh, .. } ==> (post.stage matches LoginStage::AwaitOpaqueStored { refresh: r, .. } ==> r == refresh),
        pre.stage matches LoginStage::AwaitJwt { user_id, session_id, refresh: Some(req) } ==> (event is JwtSigned ==> (
            (action matches LoginAction::StoreRefreshToken { user_id: u, session_id: s, expires_at, .. } && u == user_id && s == session_id && expires_at == req.expires_at)
            || (secret matches Err(e) && action == LoginAction::Finish(Err(ShlossError::Crypto(e)))))),
        pre.stage matches LoginStage::AwaitOpaqueStored { user_id, session_id, refresh: Some(req), .. } ==> (event is Done ==> (
            (action matches LoginAction::StoreRefreshToken { user_id: u, session_id: s, expires_at, .. } && u == user_id && s == session_id && expires_at == req.expires_at)
            || (secret matches Err(e) && action == LoginAction::Finish(Err(ShlossError::Crypto(e)))))),
        pre.stage matches LoginStage::AwaitJwt { user_id, refresh: None, .. } ==> (event matches LoginEvent::JwtSigned(jwt) ==>
            action == LoginAction::Finish(Ok(Some(LoginResult { user_id, token: IssuedToken::Jwt(jwt), refresh_token: None })))),
        pre.stage matches LoginStage::AwaitOpaqueStored { user_id, raw, refresh: None, .. } ==> (event is Done ==>
            action == LoginAction::Finish(Ok(Some(LoginResult { user_id, token: IssuedToken::Opaque(raw), refresh_token: None })))),
        pre.stage is AwaitRefreshStored ==> (event is Done ==> (action matches LoginAction::Finish(Ok(Some(r))) && r.refresh_token is Some)),
{
}

} // verus!
