//! A client for services: the requests it can send and how it reads the
//! server's answers.

use std::collections::HashMap;

use vstd::prelude::*;

use crate::server::{CONFLICT, NOT_FOUND, OK, UNAUTHORIZED};
use crate::time::Timestamp;
use crate::types::{Credentials, IpNet, LoginRequest, TokenType as IssueKind};

verus! {

/// Why a request failed, as the client reports it.
#[derive(Debug, Clone, Copy, PartialEq, Eq, Structural)]
pub enum ClientError {
    Unauthorized,
    NotFound,
    Conflict,
    ServerError,
}

/// The server's endpoints.
#[derive(Debug, Clone, Copy, PartialEq, Eq, Structural)]
pub enum Endpoint {
    Login,
    Register,
    Refresh,
    ServiceLogin,
    ValidateToken,
    DeleteUser,
    RevokeSession,
    RevokeAllSessions,
    ListSessions,
    ChangeUsername,
    ChangePassword,
    RevokeAllApiKeys,
    AddApiKey,
    RevokeApiKey,
    GetJwks,
}

impl Endpoint {
    /// The endpoint answers 401 to requests it does not accept from the caller.
    pub open spec fn reports_unauthorized(self) -> bool {
        !(self is Refresh || self is ValidateToken || self is GetJwks)
    }

    /// The endpoint answers 404 for what does not exist.
    pub open spec fn reports_not_found(self) -> bool {
        self is DeleteUser || self is RevokeSession || self is ChangeUsername || self is ChangePassword || self is AddApiKey
    }

    /// The endpoint answers 409 for what conflicts with existing data.
    pub open spec fn reports_conflict(self) -> bool {
        self is Register || self is ChangeUsername
    }
}

/// How the client reads the status of an answer from `endpoint`: 200 is
/// success; 401, 404 and 409 are reported as such where the endpoint gives
/// them; anything else is a server error.
pub fn classify_status(endpoint: Endpoint, status: u16) -> (outcome: Result<(), ClientError>)
    ensures
        outcome == (if status == OK {
            Ok(())
        } else if status == UNAUTHORIZED && endpoint.reports_unauthorized() {
            Err(ClientError::Unauthorized)
        } else if status == NOT_FOUND && endpoint.reports_not_found() {
            Err(ClientError::NotFound)
        } else if status == CONFLICT && endpoint.reports_conflict() {
            Err(ClientError::Conflict)
        } else {
            Err(ClientError::ServerError)
        }),
{
    let unauthorized = match endpoint {
        Endpoint::Refresh | Endpoint::ValidateToken | Endpoint::GetJwks => false,
        _ => true,
    };
    let not_found = match endpoint {
        Endpoint::DeleteUser | Endpoint::RevokeSession | Endpoint::ChangeUsername | Endpoint::ChangePassword | Endpoint::AddApiKey => true,
        _ => false,
    };
    let conflict = match endpoint {
        Endpoint::Register | Endpoint::ChangeUsername => true,
        _ => false,
    };
    if status == OK {
        Ok(())
    } else if status == UNAUTHORIZED && unauthorized {
        Err(ClientError::Unauthorized)
    } else if status == NOT_FOUND && not_found {
        Err(ClientError::NotFound)
    } else if status == CONFLICT && conflict {
        Err(ClientError::Conflict)
    } else {
        Err(ClientError::ServerError)
    }
}

/// The service token a service login returned.
#[derive(Debug, Clone)]
pub struct ServiceLoginResponse {
    pub token: String,
}

/// A login request under construction.
#[derive(Debug, Clone, Copy, PartialEq, Eq, Structural)]
pub struct LoginRequestBuilder {}

/// A user's login: credentials and the kind of token are required.
#[derive(Debug)]
pub struct LoginBuilder {
    pub credentials: Option<Credentials>,
    pub token_kind: Option<IssueKind>,
    pub ip_address: Option<String>,
    pub user_agent: Option<String>,
    pub refresh_expiry: Option<Timestamp>,
}

/// The network that `ipnetwork` reads in a text, as the bytes of its address
/// and its prefix length; `None` when the text is not an IPv4 or IPv6 address,
/// optionally followed by `/` and a prefix length (or, for IPv4, a netmask).
pub uninterp spec fn ip_network_parse(text: Seq<char>) -> Option<(Seq<u8>, u8)>;

/// Calls `IpNetwork::from_str` of `ipnetwork` and reads the parsed network's
/// address bytes and prefix length. Claimed: the outcome depends on the text
/// alone; an IPv4 network has 4 address bytes and a prefix of at most 32, an
/// IPv6 network 16 bytes and a prefix of at most 128 (`Ipv4Network::new`,
/// `Ipv6Network::new`).
#[verifier::external_body]
fn parse_ip_network(text: &str) -> (r: Option<(Vec<u8>, u8)>)
    ensures
        match r {
            Some((addr, prefix)) => ip_network_parse(text@) == Some((addr@, prefix)),
            None => ip_network_parse(text@) is None,
        },
        r matches Some((addr, prefix)) ==> (addr@.len() == 4 && prefix <= 32) || (addr@.len() == 16
            && prefix <= 128),
{
    match text.parse::<ipnetwork::IpNetwork>() {
        Ok(ipnetwork::IpNetwork::V4(n)) => Some((n.ip().octets().to_vec(), n.prefix())),
        Ok(ipnetwork::IpNetwork::V6(n)) => Some((n.ip().octets().to_vec(), n.prefix())),
        Err(_) => None,
    }
}

/// Why a login request could not be built.
#[derive(Debug, Clone, Copy, PartialEq, Eq, Structural)]
pub enum ClientRequestError {
    /// No credentials were set.
    MissingCredentials,
    /// No kind of token was asked for.
    MissingTokenKind,
    /// The user's address is not a network address.
    InvalidIpAddress,
}

/// `req` carries the builder's credentials, token kind, agent and refresh
/// expiry as they are.
pub open spec fn copies_builder(req: LoginRequest, b: LoginBuilder) -> bool {
    &&& Some(req.credentials) == b.credentials
    &&& Some(req.token_kind) == b.token_kind
    &&& req.user_agent == b.user_agent
    &&& req.refresh_expiry == b.refresh_expiry
}

/// What building a login request from `b` gives: an error for missing
/// credentials, then for a missing token kind, then for an address that does
/// not parse; otherwise the request with the builder's credentials, token
/// kind, agent and refresh expiry, and the parsed address if one was set.
pub open spec fn login_request_outcome(b: LoginBuilder, r: Result<LoginRequest, ClientRequestError>) -> bool {
    match b.credentials {
        None => r == Err::<LoginRequest, ClientRequestError>(ClientRequestError::MissingCredentials),
        Some(credentials) => match b.token_kind {
            None => r == Err::<LoginRequest, ClientRequestError>(ClientRequestError::MissingTokenKind),
            Some(token_kind) => {
                let parsed = match b.ip_address {
                    None => Some(None),
                    Some(text) => match ip_network_parse(text@) {
                        None => None,
                        Some(net) => Some(Some(net)),
                    },
                };
                match parsed {
                    None => r == Err::<LoginRequest, ClientRequestError>(ClientRequestError::InvalidIpAddress),
                    Some(net) => r matches Ok(req) && {
                        &&& req.credentials == credentials
                        &&& req.token_kind == token_kind
                        &&& req.user_agent == b.user_agent
                        &&& req.refresh_expiry == b.refresh_expiry
                        &&& match net {
                            None => req.ip_address is None,
                            Some((addr, prefix)) => req.ip_address is Some && req.ip_address->Some_0.addr@
                                == addr && req.ip_address->Some_0.prefix == prefix,
                        }
                    },
                }
            },
        },
    }
}

/// The login request a builder describes: it needs credentials and a kind of
/// token; the user's address, if set, must parse as a network address, and the
/// request carries the parsed network; the agent and the refresh expiry are
/// copied as they are.
pub fn login_request(b: LoginBuilder) -> (r: Result<LoginRequest, ClientRequestError>)
    ensures
        b.credentials is None ==> r == Err::<LoginRequest, ClientRequestError>(ClientRequestError::MissingCredentials),
        b.credentials is Some && b.token_kind is None ==> r == Err::<LoginRequest, ClientRequestError>(
            ClientRequestError::MissingTokenKind,
        ),
        b.credentials is Some && b.token_kind is Some ==> match b.ip_address {
            None => r matches Ok(req) && copies_builder(req, b) && req.ip_address is None,
            Some(text) => match ip_network_parse(text@) {
                None => r == Err::<LoginRequest, ClientRequestError>(ClientRequestError::InvalidIpAddress),
                Some((addr, prefix)) => r matches Ok(req) && copies_builder(req, b)
                    && req.ip_address is Some && req.ip_address->Some_0.addr@ == addr
                    && req.ip_address->Some_0.prefix == prefix,
            },
        },
        login_request_outcome(b, r),
{
    let ghost b0 = b;
    let credentials = match b.credentials {
        Some(c) => c,
        None => return Err(ClientRequestError::MissingCredentials),
    };
    let token_kind = match b.token_kind {
        Some(t) => t,
        None => return Err(ClientRequestError::MissingTokenKind),
    };
    let ip_address = match b.ip_address {
        None => None,
        Some(ip) => match parse_ip_network(ip.as_str()) {
            Some((addr, prefix)) => Some(IpNet { addr, prefix }),
            None => return Err(ClientRequestError::InvalidIpAddress),
        },
    };
    let req = LoginRequest { credentials, ip_address, user_agent: b.user_agent, token_kind, refresh_expiry: b.refresh_expiry };
    assert(copies_builder(req, b0));
    Ok(req)
}

/// A login request keeps what the builder holds: it is built exactly when
/// credentials and a token kind are set and the address, if any, parses; and
/// then it carries the builder's credentials, token kind, agent and refresh
/// expiry unchanged, and an address exactly when one was set.
pub proof fn law_login_request_keeps_the_builder(b: LoginBuilder, r: Result<LoginRequest, ClientRequestError>)
    requires
        login_request_outcome(b, r),
    ensures
        r is Ok <==> (b.credentials is Some && b.token_kind is Some && (b.ip_address matches Some(t) ==> ip_network_parse(t@) is Some)),
        r matches Ok(req) ==> {
            &&& Some(req.credentials) == b.credentials
            &&& Some(req.token_kind) == b.token_kind
            &&& req.user_agent == b.user_agent
            &&& req.refresh_expiry == b.refresh_expiry
            &&& (req.ip_address is Some <==> b.ip_address is Some)
        },
{
}

impl LoginBuilder {
    /// Logs in with a username and password.
    pub fn with_password(self, username: String, password: String) -> (b: Self)
        ensures
            b == (LoginBuilder { credentials: Some(Credentials::Password { username, password }), ..self }),
    {
        LoginBuilder { credentials: Some(Credentials::Password { username, password }), ..self }
    }

    /// Logs in with an API key.
    pub fn with_api_key(self, full_key: String) -> (b: Self)
        ensures
            b == (LoginBuilder { credentials: Some(Credentials::ApiKey { full_key }), ..self }),
    {
        LoginBuilder { credentials: Some(Credentials::ApiKey { full_key }), ..self }
    }

    /// Asks for an opaque token expiring at `expires_at`.
    pub fn opaque_token(self, expires_at: Timestamp) -> (b: Self)
        ensures
            b == (LoginBuilder { token_kind: Some(IssueKind::Opaque { expires_at }), ..self }),
    {
        LoginBuilder { token_kind: Some(IssueKind::Opaque { expires_at }), ..self }
    }

    /// Asks for a JWT with these claims.
    pub fn jwt_token(self, claims: HashMap<String, serde_json::Value>) -> (b: Self)
        ensures
            b == (LoginBuilder { token_kind: Some(IssueKind::Jwt { claims }), ..self }),
    {
        LoginBuilder { token_kind: Some(IssueKind::Jwt { claims }), ..self }
    }

    /// Records the user's address.
    pub fn set_ip_address(self, ip: String) -> (b: Self)
        ensures
            b == (LoginBuilder { ip_address: Some(ip), ..self }),
    {
        LoginBuilder { ip_address: Some(ip), ..self }
    }

    /// Records the user's agent.
    pub fn set_user_agent(self, user_agent: String) -> (b: Self)
        ensures
            b == (LoginBuilder { user_agent: Some(user_agent), ..self }),
    {
        LoginBuilder { user_agent: Some(user_agent), ..self }
    }

    /// Asks for a refresh token expiring at `expires_at`.
    pub fn with_refresh(self, expires_at: Timestamp) -> (b: Self)
        ensures
            b == (LoginBuilder { refresh_expiry: Some(expires_at), ..self }),
    {
        LoginBuilder { refresh_expiry: Some(expires_at), ..self }
    }
}

/// The credentials a user is registered with.
#[derive(Debug, Clone)]
pub enum RegisterCredentials {
    Password { username: String, password: String },
    ApiKey { name: String, key_prefix: String, expires_at: Option<Timestamp> },
}

/// A user's registration: the credentials are required.
#[derive(Debug, Clone)]
pub struct RegisterBuilder {
    pub credentials: Option<RegisterCredentials>,
}

impl RegisterBuilder {
    /// Registers with a username and password.
    pub fn with_password(self, username: String, password: String) -> (b: Self)
        ensures
            b.credentials == Some(RegisterCredentials::Password { username, password }),
    {
        RegisterBuilder { credentials: Some(RegisterCredentials::Password { username, password }) }
    }

    /// Registers with an API key of this name and prefix.
    pub fn with_api_key(self, name: String, key_prefix: String, expires_at: Option<Timestamp>) -> (b: Self)
        ensures
            b.credentials == Some(RegisterCredentials::ApiKey { name, key_prefix, expires_at }),
    {
        RegisterBuilder { credentials: Some(RegisterCredentials::ApiKey { name, key_prefix, expires_at }) }
    }
}

/// A refresh: the refresh token and the kind of the new token are required.
#[derive(Debug)]
pub struct RefreshBuilder {
    pub refresh_token: Option<String>,
    pub token_kind: Option<IssueKind>,
}

impl RefreshBuilder {
    /// Asks for an opaque token expiring at `expires_at`.
    pub fn with_opaque_token(self, expires_at: Timestamp) -> (b: Self)
        ensures
            b == (RefreshBuilder { token_kind: Some(IssueKind::Opaque { expires_at }), ..self }),
    {
        RefreshBuilder { token_kind: Some(IssueKind::Opaque { expires_at }), ..self }
    }

    /// Asks for a JWT with these claims.
    pub fn with_jwt(self, claims: HashMap<String, serde_json::Value>) -> (b: Self)
        ensures
            b == (RefreshBuilder { token_kind: Some(IssueKind::Jwt { claims }), ..self }),
    {
        RefreshBuilder { token_kind: Some(IssueKind::Jwt { claims }), ..self }
    }

    /// The refresh token to trade.
    pub fn set_refresh_token(self, token: String) -> (b: Self)
        ensures
            b == (RefreshBuilder { refresh_token: Some(token), ..self }),
    {
        RefreshBuilder { refresh_token: Some(token), ..self }
    }
}

/// The token a validation checks.
#[derive(Debug, Clone)]
pub enum TokenType {
    Jwt(String),
    Opaque(String),
}

/// A token check: the token is required.
#[derive(Debug, Clone)]
pub struct ValidateBuilder {
    pub kind: Option<TokenType>,
}

impl ValidateBuilder {
    /// Checks a JWT.
    pub fn with_jwt(self, token: String) -> (b: Self)
        ensures
            b.kind == Some(TokenType::Jwt(token)),
    {
        ValidateBuilder { kind: Some(TokenType::Jwt(token)) }
    }

    /// Checks an opaque token.
    pub fn with_opaque(self, token: String) -> (b: Self)
        ensures
            b.kind == Some(TokenType::Opaque(token)),
    {
        ValidateBuilder { kind: Some(TokenType::Opaque(token)) }
    }
}

/// A service's login with its raw key.
#[derive(Debug, Clone)]
pub struct ServiceLoginBuilder {
    pub raw_key: String,
}

impl ServiceLoginBuilder {
    /// A login with this raw key.
    pub fn new(raw_key: String) -> (b: Self)
        ensures
            b.raw_key == raw_key,
    {
        ServiceLoginBuilder { raw_key }
    }
}

/// Fetching the published key set.
#[derive(Debug, Clone, Copy, PartialEq, Eq, Structural)]
pub struct GetJwks;

impl Default for GetJwks {
    /// The request.
    fn default() -> (r: Self)
        ensures
            r == GetJwks,
    {
        GetJwks
    }
}

impl GetJwks {
    /// The request.
    pub fn new() -> (r: Self)
        ensures
            r == GetJwks,
    {
        GetJwks
    }
}

/// Deleting a user.
#[derive(Debug, Clone, Copy, PartialEq, Eq, Structural)]
pub struct DeleteUser {
    pub user_id: u128,
}

impl DeleteUser {
    /// The request.
    pub fn new(user_id: u128) -> (r: Self)
        ensures
            r == (DeleteUser { user_id }),
    {
        DeleteUser { user_id }
    }
}

/// Revoking one session of a user.
#[derive(Debug, Clone, Copy, PartialEq, Eq, Structural)]
pub struct RevokeSession {
    pub user_id: u128,
    pub session_id: u128,
}

impl RevokeSession {
    /// The request.
    pub fn new(user_id: u128, session_id: u128) -> (r: Self)
        ensures
            r == (RevokeSession { user_id, session_id }),
    {
        RevokeSession { user_id, session_id }
    }
}

/// Revoking all sessions (and tokens) of a user.
#[derive(Debug, Clone, Copy, PartialEq, Eq, Structural)]
pub struct RevokeAllSessions {
    pub user_id: u128,
}

impl RevokeAllSessions {
    /// The request.
    pub fn new(user_id: u128) -> (r: Self)
        ensures
            r == (RevokeAllSessions { user_id }),
    {
        RevokeAllSessions { user_id }
    }
}

/// Listing the sessions of a user.
#[derive(Debug, Clone, Copy, PartialEq, Eq, Structural)]
pub struct ListSessions {
    pub user_id: u128,
}

impl ListSessions {
    /// The request.
    pub fn new(user_id: u128) -> (r: Self)
        ensures
            r == (ListSessions { user_id }),
    {
        ListSessions { user_id }
    }
}

/// Changing a user's username.
#[derive(Debug, Clone)]
pub struct ChangeUsername {
    pub user_id: u128,
    pub new_username: String,
}

impl ChangeUsername {
    /// The request.
    pub fn new(user_id: u128, new_username: String) -> (r: Self)
        ensures
            r == (ChangeUsername { user_id, new_username }),
    {
        ChangeUsername { user_id, new_username }
    }
}

/// Changing a user's password.
#[derive(Debug, Clone)]
pub struct ChangePassword {
    pub user_id: u128,
    pub new_password: String,
}

impl ChangePassword {
    /// The request.
    pub fn new(user_id: u128, new_password: String) -> (r: Self)
        ensures
            r == (ChangePassword { user_id, new_password }),
    {
        ChangePassword { user_id, new_password }
    }
}

/// Revoking all API keys of a user.
#[derive(Debug, Clone, Copy, PartialEq, Eq, Structural)]
pub struct RevokeAllApiKeys {
    pub user_id: u128,
}

impl RevokeAllApiKeys {
    /// The request.
    pub fn new(user_id: u128) -> (r: Self)
        ensures
            r == (RevokeAllApiKeys { user_id }),
    {
        RevokeAllApiKeys { user_id }
    }
}

/// Giving a user another API key.
#[derive(Debug, Clone)]
pub struct AddApiKey {
    pub user_id: u128,
    pub name: String,
    pub key_prefix: String,
    pub expires_at: Option<Timestamp>,
}

impl AddApiKey {
    /// The request.
    pub fn new(user_id: u128, name: String, key_prefix: String, expires_at: Option<Timestamp>) -> (r: Self)
        ensures
            r == (AddApiKey { user_id, name, key_prefix, expires_at }),
    {
        AddApiKey { user_id, name, key_prefix, expires_at }
    }
}

/// Revoking one API key of a user.
#[derive(Debug, Clone)]
pub struct RevokeApiKey {
    pub user_id: u128,
    pub key: String,
}

impl RevokeApiKey {
    /// The request.
    pub fn new(user_id: u128, key: String) -> (r: Self)
        ensures
            r == (RevokeApiKey { user_id, key }),
    {
        RevokeApiKey { user_id, key }
    }
}

/// The requests a service can send.
#[derive(Debug, Clone, Copy, PartialEq, Eq, Structural)]
pub struct Request;

impl Request {
    /// A login, with nothing set yet.
    pub fn login() -> (b: LoginBuilder)
        ensures
            b.credentials is None && b.token_kind is None && b.ip_address is None && b.user_agent is None && b.refresh_expiry is None,
    {
        LoginBuilder { credentials: None, token_kind: None, ip_address: None, user_agent: None, refresh_expiry: None }
    }

    /// A registration, with nothing set yet.
    pub fn register() -> (b: RegisterBuilder)
        ensures
            b.credentials is None,
    {
        RegisterBuilder { credentials: None }
    }

    /// A refresh of this refresh token.
    pub fn refresh(refresh_token: String) -> (b: RefreshBuilder)
        ensures
            b.refresh_token == Some(refresh_token),
            b.token_kind is None,
    {
        RefreshBuilder { refresh_token: Some(refresh_token), token_kind: None }
    }

    /// A token check, with no token set yet.
    pub fn validate_jwt() -> (b: ValidateBuilder)
        ensures
            b.kind is None,
    {
        ValidateBuilder { kind: None }
    }

    /// Deleting a user.
    pub fn delete_user(user_id: u128) -> (r: DeleteUser)
        ensures
            r == (DeleteUser { user_id }),
    {
        DeleteUser::new(user_id)
    }

    /// Revoking a session.
    pub fn revoke_session(user_id: u128, session_id: u128) -> (r: RevokeSession)
        ensures
            r == (RevokeSession { user_id, session_id }),
    {
        RevokeSession::new(user_id, session_id)
    }

    /// Revoking all sessions of a user.
    pub fn revoke_all_sessions(user_id: u128) -> (r: RevokeAllSessions)
        ensures
            r == (RevokeAllSessions { user_id }),
    {
        RevokeAllSessions::new(user_id)
    }

    /// Listing the sessions of a user.
    pub fn list_sessions(user_id: u128) -> (r: ListSessions)
        ensures
            r == (ListSessions { user_id }),
    {
        ListSessions::new(user_id)
    }

    /// Changing a user's username.
    pub fn change_username(user_id: u128, new_username: String) -> (r: ChangeUsername)
        ensures
            r == (ChangeUsername { user_id, new_username }),
    {
        ChangeUsername::new(user_id, new_username)
    }

    /// Changing a user's password.
    pub fn change_password(user_id: u128, new_password: String) -> (r: ChangePassword)
        ensures
            r == (ChangePassword { user_id, new_password }),
    {
        ChangePassword::new(user_id, new_password)
    }

    /// Revoking all API keys of a user.
    pub fn revoke_all_api_keys(user_id: u128) -> (r: RevokeAllApiKeys)
        ensures
            r == (RevokeAllApiKeys { user_id }),
    {
        RevokeAllApiKeys::new(user_id)
    }

    /// Giving a user another API key.
    pub fn add_api_key(user_id: u128, name: String, key_prefix: String, expires_at: Option<Timestamp>) -> (r: AddApiKey)
        ensures
            r == (AddApiKey { user_id, name, key_prefix, expires_at }),
    {
        AddApiKey::new(user_id, name, key_prefix, expires_at)
    }

    /// Revoking one API key of a user.
    pub fn revoke_api_key(user_id: u128, key: String) -> (r: RevokeApiKey)
        ensures
            r == (RevokeApiKey { user_id, key }),
    {
        RevokeApiKey::new(user_id, key)
    }

    /// Fetching the published key set.
    pub fn get_jwks() -> (r: GetJwks)
        ensures
            r == GetJwks,
    {
        GetJwks::new()
    }
}

} // verus!
