//! The administration tool's commands and the service keys it generates.

use vstd::prelude::*;

use crate::crypto::{generate_secret, hash_secret, is_hex_of_len, secret_hash, SECRET_BYTES};
use crate::error::CryptoError;

verus! {

/// The administration tool's command line.
#[derive(Debug, Clone)]
pub struct Cli {
    pub command: Command,
}

/// What the administration tool is asked to do.
#[derive(Debug, Clone)]
pub enum Command {
    /// Write a new `client_credentials.toml` with a first service key.
    GenerateConfig { name: String },
    /// Add a service key (or replace the key of a service of that name).
    GenerateKey { name: String },
    /// Give a service a new key, keeping its vault.
    RotateKey { name: String },
}

/// The text of a service key: `shloss_` and a secret.
pub open spec fn service_key_text(secret: Seq<char>) -> Seq<char> {
    seq!['s', 'h', 'l', 'o', 's', 's', '_'] + secret
}

/// The service key made of `secret`: `shloss_` followed by it.
pub fn service_key_from_secret(secret: &str) -> (key: String)
    ensures
        key@ == service_key_text(secret@),
{
    let mut key = String::from_str("shloss_");
    key.append(secret);
    proof {
        reveal_strlit("shloss_");
    }
    key
}

/// A fresh service key: `shloss_` followed by 32 random bytes in lowercase hex.
pub fn generate_service_key() -> (key: Result<String, CryptoError>)
    ensures
        key matches Ok(k) ==> exists|secret: Seq<char>| is_hex_of_len(secret, SECRET_BYTES as nat) && k@ == service_key_text(secret),
        key matches Err(e) ==> e == CryptoError::Random,
{
    let secret = generate_secret()?;
    Ok(service_key_from_secret(secret.as_str()))
}

/// The hash under which a service key is listed.
pub fn hash_key(raw: &str) -> (hash: String)
    ensures
        hash@ == secret_hash(raw@),
{
    hash_secret(raw)
}

} // verus!
