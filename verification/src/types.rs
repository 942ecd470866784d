//! The messages exchanged between services and the server.

use std::collections::HashMap;

use vstd::prelude::*;

use crate::time::Timestamp;

verus! {

/// A network address with prefix, as `ipnetwork` represents it; carried through
/// unread.
#[verifier::external_type_specification]
#[verifier::external_body]
pub struct ExIpNetwork(ipnetwork::IpNetwork);

/// A JSON value, as `serde_json` represents it; carried through unread.
#[verifier::external_type_specification]
#[verifier::external_body]
pub struct ExJsonValue(serde_json::Value);

/// A request to check a token a user presented.
#[derive(Debug, Clone)]
pub struct TokenValidateRequest {
    pub token: String,
    pub kind: TokenKind,
}

/// The answer to a token check.
#[derive(Debug, Clone, Copy, PartialEq, Eq, Structural)]
pub enum TokenValidateResponse {
    Invalid,
    Valid { user_id: u128 },
}

/// The kinds of token a service can ask the server to check.
#[derive(Debug, Clone, Copy, PartialEq, Eq, Structural)]
pub enum TokenKind {
    Jwt,
    Opaque,
}

/// A network address with its prefix length, as plain values: the address's
/// bytes, most significant first (4 for IPv4, 16 for IPv6), and the number of
/// leading bits that name the network.
#[derive(Debug, Clone, PartialEq, Eq)]
pub struct IpNet {
    pub addr: Vec<u8>,
    pub prefix: u8,
}

/// A user's login, as a service sends it.
#[derive(Debug)]
pub struct LoginRequest {
    pub credentials: Credentials,
    pub ip_address: Option<IpNet>,
    pub user_agent: Option<String>,
    pub token_kind: TokenType,
    pub refresh_expiry: Option<Timestamp>,
}

/// The answer to a successful login.
#[derive(Debug, Clone)]
pub struct LoginResponse {
    pub user_id: u128,
    pub token: String,
    pub refresh_token: Option<String>,
}

/// A request to trade a refresh token for a new token.
#[derive(Debug)]
pub struct RefreshRequest {
    pub refresh_token: String,
    pub token_type: TokenType,
}

/// The answer to a refresh: the new refresh token and the new token, or
/// `Invalid` when the refresh token is not accepted.
#[derive(Debug, Clone)]
pub enum RefreshResponse {
    Invalid,
    Valid { new_refresh: String, new_token: String },
}

/// A service's login with its raw key.
#[derive(Debug, Clone)]
pub struct LoginServiceRequest {
    pub raw_key: String,
}

/// The service token a service logged in with.
#[derive(Debug, Clone)]
pub struct LoginServiceResponse {
    pub token: String,
}

/// A request to register a user with a password or with an API key.
#[derive(Debug, Clone)]
pub enum RegisterRequest {
    Password { username: String, password: String },
    ApiKey { name: String, key_prefix: String, expires_at: Option<Timestamp> },
}

/// The answer to a registration: the new user's id, and the raw API key for
/// users registered with one.
#[derive(Debug, Clone)]
pub enum RegisterResponse {
    Password { user_id: u128 },
    ApiKey { user_id: u128, raw_key: String },
}

/// A request to give a user another API key.
#[derive(Debug, Clone)]
pub struct AddApiKeyRequest {
    pub name: String,
    pub key_prefix: String,
    pub expires_at: Option<Timestamp>,
}

/// The raw API key that was added.
#[derive(Debug, Clone)]
pub struct AddApiKeyResponse {
    pub key: String,
}

/// A request to revoke one API key of a user.
#[derive(Debug, Clone)]
pub struct RevokeApiKeyRequest {
    pub key: String,
}

/// A request to change a user's username.
#[derive(Debug, Clone)]
pub struct ChangeUsernameRequest {
    pub new_username: String,
}

/// A request to change a user's password.
#[derive(Debug, Clone)]
pub struct ChangePasswordRequest {
    pub new_password: String,
}

/// The credentials a user logs in with.
#[derive(Debug, Clone)]
pub enum Credentials {
    Password { username: String, password: String },
    ApiKey { full_key: String },
}

/// The kind of token a login or refresh should issue: a JWT with the service's
/// claims, or an opaque token expiring at the given time.
#[derive(Debug)]
pub enum TokenType {
    Jwt { claims: HashMap<String, serde_json::Value> },
    Opaque { expires_at: Timestamp },
}

/// A refresh token to issue alongside the token, expiring at the given time.
#[derive(Debug, Clone, Copy, PartialEq, Eq, Structural)]
pub struct RefreshTokenRequest {
    pub expires_at: Timestamp,
}

/// Everything a login needs.
#[derive(Debug)]
pub struct LoginContext {
    pub credentials: Credentials,
    pub ip_address: Option<ipnetwork::IpNetwork>,
    pub user_agent: Option<String>,
    pub token: TokenType,
    pub refresh: Option<RefreshTokenRequest>,
}

/// The token a login issued.
#[derive(Debug, Clone)]
pub enum IssuedToken {
    Jwt(String),
    Opaque(String),
}

/// What a successful login yields.
#[derive(Debug, Clone)]
pub struct LoginResult {
    pub user_id: u128,
    pub token: IssuedToken,
    pub refresh_token: Option<String>,
}

impl TokenKind {
    /// The kind's name, as log lines show it.
    pub fn label(&self) -> (label: &'static str)
        ensures
            label@ == (match *self {
                TokenKind::Jwt => "jwt"@,
                TokenKind::Opaque => "opaque"@,
            }),
    {
        match self {
            TokenKind::Jwt => "jwt",
            TokenKind::Opaque => "opaque",
        }
    }
}

impl Credentials {
    /// The kind of the credentials, as log lines show it (never the secret).
    pub fn label(&self) -> (label: &'static str)
        ensures
            label@ == (match *self {
                Credentials::Password { .. } => "password"@,
                Credentials::ApiKey { .. } => "api-key"@,
            }),
    {
        match self {
            Credentials::Password { .. } => "password",
            Credentials::ApiKey { .. } => "api-key",
        }
    }
}

impl TokenType {
    /// The kind of token asked for, as log lines show it.
    pub fn label(&self) -> (label: &'static str)
        ensures
            label@ == (match *self {
                TokenType::Jwt { .. } => "jwt"@,
                TokenType::Opaque { .. } => "opaque"@,
            }),
    {
        match self {
            TokenType::Jwt { .. } => "jwt",
            TokenType::Opaque { .. } => "opaque",
        }
    }
}

impl RegisterRequest {
    /// The kind of credential registered, as log lines show it (never the
    /// secret).
    pub fn label(&self) -> (label: &'static str)
        ensures
            label@ == (match *self {
                RegisterRequest::Password { .. } => "password"@,
                RegisterRequest::ApiKey { .. } => "api-key"@,
            }),
    {
        match self {
            RegisterRequest::Password { .. } => "password",
            RegisterRequest::ApiKey { .. } => "api-key",
        }
    }
}

impl RegisterResponse {
    /// The registered user, which is all that log lines show of a
    /// registration's answer.
    pub fn user_id(&self) -> (user_id: u128)
        ensures
            user_id == (match *self {
                RegisterResponse::Password { user_id } => user_id,
                RegisterResponse::ApiKey { user_id, .. } => user_id,
            }),
    {
        match self {
            RegisterResponse::Password { user_id } => *user_id,
            RegisterResponse::ApiKey { user_id, .. } => *user_id,
        }
    }
}

} // verus!
