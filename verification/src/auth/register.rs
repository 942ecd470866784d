//! A user's registration, as a sequence of decisions between database
//! operations: create the user in the service's vault, then store the user's
//! credential (a password hash, or the hash of a generated API key).

use vstd::prelude::*;

use crate::crypto::{
    api_key_from_secret, argon2_accepts, argon2_check, argon2_phc, drawn_salt, drawn_secret,
    generate_salt, generate_secret, hash_password_with_salt, prefixed_key, secret_hash,
};
use crate::error::CryptoError;
use crate::error::{DbError, ShlossError, ShlossResult};
use crate::time::Timestamp;
use crate::types::{RegisterRequest, RegisterResponse};

verus! {

/// Where a registration stands.
#[derive(Debug)]
pub enum RegisterStage {
    /// Waiting for the user to be created.
    AwaitUser { request: RegisterRequest },
    /// Waiting for the credential to be stored; then this is the answer.
    AwaitCredential { response: RegisterResponse },
    /// The registration is over.
    Finished,
}

/// A registration in progress, in the vault of the calling service.
#[derive(Debug)]
pub struct RegisterFlow {
    pub vault_id: u128,
    pub stage: RegisterStage,
}

/// The next operation of a registration.
#[derive(Debug)]
pub enum RegisterAction {
    /// Create a user in the vault; answer `UserCreated`.
    CreateUser { vault_id: u128 },
    /// Store the user's username and password hash; answer `Done`.
    StorePassword { user_id: u128, vault_id: u128, username: String, hash: String },
    /// Store an API key of the user by its hash; answer `Done`.
    StoreApiKey {
        user_id: u128,
        name: String,
        key_prefix: String,
        hash: String,
        expires_at: Option<Timestamp>,
        vault_id: u128,
    },
    /// The registration is over, with this result.
    Finish(ShlossResult<RegisterResponse>),
}

/// The outcome of the last operation.
#[derive(Debug)]
pub enum RegisterEvent {
    UserCreated(u128),
    Done,
    Failed(ShlossError),
}

/// `post` and `action` end the registration with `result`.
pub open spec fn register_finishes(
    pre: RegisterFlow,
    post: RegisterFlow,
    action: RegisterAction,
    result: ShlossResult<RegisterResponse>,
) -> bool {
    &&& post.vault_id == pre.vault_id
    &&& post.stage is Finished
    &&& action == RegisterAction::Finish(result)
}

/// Storing the credential of the new user `user_id`, as `request` asks: a
/// password is stored as its Argon2 hash under the drawn `salt` (the
/// registration fails only where the draw failed or Argon2 refuses the
/// inputs); an API key is made of the drawn `secret` and stored by its hash.
pub open spec fn stores_credential(
    pre: RegisterFlow,
    user_id: u128,
    request: RegisterRequest,
    salt: Result<Vec<u8>, CryptoError>,
    secret: Result<String, CryptoError>,
    post: RegisterFlow,
    action: RegisterAction,
) -> bool {
    match request {
        RegisterRequest::Password { username, password } => match salt {
            Err(e) => register_finishes(pre, post, action, Err(ShlossError::Crypto(e))),
            Ok(s) => {
                ||| !argon2_accepts(password@, s@) && register_finishes(pre, post, action, Err(ShlossError::Crypto(CryptoError::PasswordHash)))
                ||| {
                    &&& post.vault_id == pre.vault_id
                    &&& post.stage == RegisterStage::AwaitCredential { response: RegisterResponse::Password { user_id } }
                    &&& action matches RegisterAction::StorePassword { user_id: u, vault_id: v, username: n, hash }
                    &&& u == user_id && v == pre.vault_id && n == username
                    &&& hash@ == argon2_phc(password@, s@)
                    &&& argon2_check(password@, hash@) == Some(true)
                }
            },
        },
        RegisterRequest::ApiKey { name, key_prefix, expires_at } => match secret {
            Err(e) => register_finishes(pre, post, action, Err(ShlossError::Crypto(e))),
            Ok(sec) => {
                &&& post.vault_id == pre.vault_id
                &&& post.stage matches RegisterStage::AwaitCredential { response: RegisterResponse::ApiKey { user_id: u, raw_key } }
                &&& u == user_id
                &&& raw_key@ == prefixed_key(key_prefix@, sec@)
                &&& action matches RegisterAction::StoreApiKey { user_id: u2, name: n, key_prefix: p, hash, expires_at: e, vault_id: v }
                &&& u2 == user_id && n == name && p@ == key_prefix@ && e == expires_at && v == pre.vault_id
                &&& hash@ == secret_hash(raw_key@)
            },
        },
    }
}

/// One step of a registration, given a freshly drawn salt and secret (or the
/// failures to draw them).
pub open spec fn register_transition(
    pre: RegisterFlow,
    event: RegisterEvent,
    salt: Result<Vec<u8>, CryptoError>,
    secret: Result<String, CryptoError>,
    post: RegisterFlow,
    action: RegisterAction,
) -> bool {
    match event {
        RegisterEvent::Failed(e) => match pre.stage {
            RegisterStage::Finished => register_finishes(pre, post, action, Err(ShlossError::Database(DbError::Other))),
            _ => register_finishes(pre, post, action, Err(e)),
        },
        RegisterEvent::UserCreated(user_id) => match pre.stage {
            RegisterStage::AwaitUser { request } => stores_credential(pre, user_id, request, salt, secret, post, action),
            _ => register_finishes(pre, post, action, Err(ShlossError::Database(DbError::Other))),
        },
        RegisterEvent::Done => match pre.stage {
            RegisterStage::AwaitCredential { response } => register_finishes(pre, post, action, Ok(response)),
            _ => register_finishes(pre, post, action, Err(ShlossError::Database(DbError::Other))),
        },
    }
}

impl RegisterFlow {
    /// Starts registering a user in the vault `vault_id`: first the user is
    /// created there.
    pub fn start(request: RegisterRequest, vault_id: u128) -> (started: (RegisterFlow, RegisterAction))
        ensures
            started.0 == (RegisterFlow { vault_id, stage: RegisterStage::AwaitUser { request } }),
            started.1 == (RegisterAction::CreateUser { vault_id }),
    {
        (RegisterFlow { vault_id, stage: RegisterStage::AwaitUser { request } }, RegisterAction::CreateUser { vault_id })
    }

    fn finish(vault_id: u128, result: ShlossResult<RegisterResponse>) -> (next: (RegisterFlow, RegisterAction))
        ensures
            next.0.vault_id == vault_id,
            next.0.stage is Finished,
            next.1 == RegisterAction::Finish(result),
    {
        (RegisterFlow { vault_id, stage: RegisterStage::Finished }, RegisterAction::Finish(result))
    }

    /// Takes the outcome of the last operation and yields the next one; a
    /// credential stored in this step is made with the salt or the secret drawn
    /// for it.
    pub fn step(self, event: RegisterEvent) -> (next: (RegisterFlow, RegisterAction))
        ensures
            exists|salt: Result<Vec<u8>, CryptoError>, secret: Result<String, CryptoError>|
                #[trigger] drawn_salt(salt) && #[trigger] drawn_secret(secret)
                    && register_transition(self, event, salt, secret, next.0, next.1),
    {
        let salt = generate_salt();
        let secret = generate_secret();
        let next = self.step_with(event, salt, secret);
        assert(drawn_salt(salt) && drawn_secret(secret));
        next
    }

    /// Takes the outcome of the last operation, a freshly drawn salt and a
    /// freshly drawn secret (or the failures to draw them), and yields the next
    /// operation. The salt hashes a password; the secret makes an API key.
    pub fn step_with(
        self,
        event: RegisterEvent,
        salt: Result<Vec<u8>, CryptoError>,
        secret: Result<String, CryptoError>,
    ) -> (next: (RegisterFlow, RegisterAction))
        ensures
            register_transition(self, event, salt, secret, next.0, next.1),
    {
        let vault_id = self.vault_id;
        match event {
            RegisterEvent::Failed(e) => match self.stage {
                RegisterStage::Finished => Self::finish(vault_id, Err(ShlossError::Database(DbError::Other))),
                _ => Self::finish(vault_id, Err(e)),
            },
            RegisterEvent::UserCreated(user_id) => match self.stage {
                RegisterStage::AwaitUser { request } => match request {
                    RegisterRequest::Password { username, password } => match salt {
                        Err(e) => Self::finish(vault_id, Err(ShlossError::Crypto(e))),
                        Ok(s) => {
                            let hashed = if s.len() < 3 {
                                Err(CryptoError::PasswordHash)
                            } else {
                                hash_password_with_salt(password.as_str(), s.as_slice())
                            };
                            match hashed {
                                Err(e) => Self::finish(vault_id, Err(ShlossError::Crypto(e))),
                                Ok(hash) => (
                                    RegisterFlow {
                                        vault_id,
                                        stage: RegisterStage::AwaitCredential { response: RegisterResponse::Password { user_id } },
                                    },
                                    RegisterAction::StorePassword { user_id, vault_id, username, hash },
                                ),
                            }
                        },
                    },
                    RegisterRequest::ApiKey { name, key_prefix, expires_at } => match secret {
                        Err(e) => Self::finish(vault_id, Err(ShlossError::Crypto(e))),
                        Ok(sec) => {
                            let key = api_key_from_secret(key_prefix.clone(), sec.as_str());
                            (
                            RegisterFlow {
                                vault_id,
                                stage: RegisterStage::AwaitCredential {
                                    response: RegisterResponse::ApiKey { user_id, raw_key: key.full_key },
                                },
                            },
                            RegisterAction::StoreApiKey {
                                user_id,
                                name,
                                key_prefix,
                                hash: key.hash,
                                expires_at,
                                vault_id,
                            },
                            )
                        },
                    },
                },
                _ => Self::finish(vault_id, Err(ShlossError::Database(DbError::Other))),
            },
            RegisterEvent::Done => match self.stage {
                RegisterStage::AwaitCredential { response } => Self::finish(vault_id, Ok(response)),
                _ => Self::finish(vault_id, Err(ShlossError::Database(DbError::Other))),
            },
        }
    }
}

/// A registration stores passwords only as Argon2 hashes that the password
/// checks against, and an API key only by the hash of the raw key it hands
/// out; both for the user just created, in the flow's vault.
pub proof fn law_registration_stores_only_hashes(
    pre: RegisterFlow,
    event: RegisterEvent,
    salt: Result<Vec<u8>, CryptoError>,
    secret: Result<String, CryptoError>,
    post: RegisterFlow,
    action: RegisterAction,
)
    requires
        register_transition(pre, event, salt, secret, post, action),
    ensures
        post.vault_id == pre.vault_id,
        action matches RegisterAction::CreateUser { vault_id } ==> vault_id == pre.vault_id,
        action matches RegisterAction::StorePassword { user_id, vault_id, hash, .. } ==> ({
            &&& pre.stage matches RegisterStage::AwaitUser { request: RegisterRequest::Password { password, .. } }
            &&& event == RegisterEvent::UserCreated(user_id)
            &&& vault_id == pre.vault_id
            &&& salt matches Ok(s) && hash@ == argon2_phc(password@, s@)
            &&& argon2_check(password@, hash@) == Some(true)
        }),
        action matches RegisterAction::StoreApiKey { user_id, hash, vault_id, .. } ==> ({
            &&& event == RegisterEvent::UserCreated(user_id)
            &&& vault_id == pre.vault_id
            &&& post.stage matches RegisterStage::AwaitCredential { response: RegisterResponse::ApiKey { raw_key, .. } }
            &&& hash@ == secret_hash(raw_key@)
        }),
{
}

/// A registration stores the credential the request describes: once the user
/// is created, a password registration stores the requested username with an
/// Argon2 hash of the password under the drawn salt, and an API-key
/// registration stores the requested name, prefix and expiry with the hash of
/// the key `<prefix>_<secret>` made of the drawn secret, which it hands out;
/// both for the new user in the flow's vault. A failed draw ends the
/// registration with that error.
pub proof fn law_registration_stores_the_requested_credential(
    pre: RegisterFlow,
    event: RegisterEvent,
    salt: Result<Vec<u8>, CryptoError>,
    secret: Result<String, CryptoError>,
    post: RegisterFlow,
    action: RegisterAction,
)
    requires
        register_transition(pre, event, salt, secret, post, action),
    ensures
        pre.stage matches RegisterStage::AwaitUser { request: RegisterRequest::ApiKey { name, key_prefix, expires_at } } ==> (
        event matches RegisterEvent::UserCreated(user_id) ==> ({
            &&& secret matches Err(e) ==> action == RegisterAction::Finish(Err(ShlossError::Crypto(e)))
            &&& secret matches Ok(sec) ==> {
                &&& action matches RegisterAction::StoreApiKey { user_id: u, name: n, key_prefix: p, hash, expires_at: e, vault_id: v }
                &&& u == user_id && n == name && p@ == key_prefix@ && e == expires_at && v == pre.vault_id
                &&& post.stage matches RegisterStage::AwaitCredential { response: RegisterResponse::ApiKey { user_id: ru, raw_key } }
                &&& ru == user_id
                &&& raw_key@ == key_prefix@ + seq!['_'] + sec@
                &&& hash@ == secret_hash(raw_key@)
            }
        })),
        pre.stage matches RegisterStage::AwaitUser { request: RegisterRequest::Password { username, password } } ==> (
        event matches RegisterEvent::UserCreated(user_id) ==> ({
            &&& salt matches Err(e) ==> action == RegisterAction::Finish(Err(ShlossError::Crypto(e)))
            &&& salt matches Ok(s) ==> (argon2_accepts(password@, s@) ==> {
                &&& action matches RegisterAction::StorePassword { user_id: u, vault_id: v, username: n, hash }
                &&& u == user_id && v == pre.vault_id && n == username
                &&& hash@ == argon2_phc(password@, s@)
                &&& post.stage == RegisterStage::AwaitCredential { response: RegisterResponse::Password { user_id } }
            })
        })),
{
}

} // verus!
