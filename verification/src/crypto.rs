//! Secrets, tokens and their hashes.
//!
//! Machine-generated secrets (tokens, API keys, service keys) are 32 random
//! bytes written as lowercase hex, and they are stored as the lowercase hex of
//! their SHA-256 digest.

use argon2::{PasswordHash, PasswordHasher, PasswordVerifier};
use sha2::Digest;
use vstd::prelude::*;

use crate::error::CryptoError;

verus! {

/// The digit of a nibble in lowercase hexadecimal.
pub open spec fn hex_digit(n: u8) -> char {
    if n < 10 {
        (('0' as u8) + n) as char
    } else {
        (('a' as u8) + (n - 10)) as char
    }
}

/// Lowercase hexadecimal of a byte string, high nibble first.
pub open spec fn hex_lower(bytes: Seq<u8>) -> Seq<char>
    decreases bytes.len(),
{
    if bytes.len() == 0 {
        Seq::empty()
    } else {
        seq![hex_digit(bytes[0] / 16), hex_digit(bytes[0] % 16)] + hex_lower(bytes.drop_first())
    }
}

/// The SHA-256 digest of a byte string.
pub uninterp spec fn sha256(data: Seq<u8>) -> Seq<u8>;

/// The stored form of a secret: the lowercase hex of the SHA-256 digest of its
/// UTF-8 bytes.
pub open spec fn secret_hash(secret: Seq<char>) -> Seq<char> {
    hex_lower(sha256(vstd::utf8::encode_utf8(secret)))
}

/// Calls `sha2::Sha256::digest`. Claimed: the result is the SHA-256 digest of
/// `data`, which is always 32 bytes long.
#[verifier::external_body]
fn sha256_digest(data: &[u8]) -> (digest: Vec<u8>)
    ensures
        digest@ == sha256(data@),
        digest@.len() == 32,
{
    sha2::Sha256::digest(data).to_vec()
}

/// Calls `hex::encode`. Claimed: lowercase hex, two digits per byte, high
/// nibble first, as the crate documents.
#[verifier::external_body]
fn hex_encode(data: &[u8]) -> (text: String)
    ensures
        text@ == hex_lower(data@),
{
    hex::encode(data)
}

/// The lowercase hexadecimal text of a byte string, two digits per byte.
pub fn hex_lowercase(bytes: &[u8]) -> (text: String)
    ensures
        text@ == hex_lower(bytes@),
{
    hex_encode(bytes)
}

/// Hashes a machine-generated secret (token, API key or service key) for
/// storage.
pub fn hash_secret(secret: &str) -> (hash: String)
    ensures
        hash@ == secret_hash(secret@),
{
    let digest = sha256_digest(secret.as_bytes());
    hex_lowercase(&digest)
}

/// The error type of `getrandom`.
#[verifier::external_type_specification]
#[verifier::external_body]
pub struct ExRandomError(getrandom::Error);

/// The error type of `password_hash`, which `argon2` re-exports.
#[verifier::external_type_specification]
#[verifier::external_body]
pub struct ExPasswordHashError(argon2::password_hash::Error);

/// Calls `getrandom::fill` on a fresh buffer of `len` bytes. Claimed: on success
/// the buffer has `len` bytes. Nothing is claimed of their values: they come
/// from the operating system's random source.
#[verifier::external_body]
fn random_bytes(len: usize) -> (bytes: Result<Vec<u8>, getrandom::Error>)
    ensures
        bytes matches Ok(b) ==> b@.len() == len,
{
    let mut buf = vec![0u8; len];
    match getrandom::fill(&mut buf) {
        Ok(()) => Ok(buf),
        Err(e) => Err(e),
    }
}

/// The inputs that Argon2id with default parameters accepts: a salt of 8 to 48
/// bytes (at least `MIN_SALT_LEN`, and at most what a 64-character base64 salt
/// string holds) and a password of at most `u32::MAX` bytes.
pub open spec fn argon2_accepts(password: Seq<char>, salt: Seq<u8>) -> bool {
    &&& 8 <= salt.len() <= 48
    &&& vstd::utf8::encode_utf8(password).len() <= u32::MAX
}

/// The PHC string that Argon2id with default parameters computes for a
/// password and a salt.
pub uninterp spec fn argon2_phc(password: Seq<char>, salt: Seq<u8>) -> Seq<char>;

/// What checking a password against a stored PHC string gives: `None` when the
/// string is not a well-formed password hash, else whether the password matches.
pub uninterp spec fn argon2_check(password: Seq<char>, phc: Seq<char>) -> Option<bool>;

/// Calls `SaltString::encode_b64` on `salt`, then `Argon2::default().hash_password`
/// on the password's bytes, and renders the result as a PHC string. Claimed: the
/// result is determined by the password and the salt, and checking the same
/// password against it succeeds, as the `argon2` documentation shows. A salt
/// under 3 bytes encodes to fewer than the 4 characters a `Salt` needs, and
/// `hash_password` then panics (`SaltString::as_salt`): `requires` leaves it out.
/// Also claimed, from `Argon2::verify_inputs` and `SaltString::encode_b64`: with
/// the default parameters the hashing succeeds whenever `argon2_accepts` holds.
#[verifier::external_body]
fn argon2_hash(password: &str, salt: &[u8]) -> (phc: Result<String, argon2::password_hash::Error>)
    requires
        salt@.len() >= 3,
    ensures
        phc matches Ok(h) ==> h@ == argon2_phc(password@, salt@) && argon2_check(password@, h@)
            == Some(true),
        argon2_accepts(password@, salt@) ==> phc is Ok,
{
    let salt = argon2::password_hash::SaltString::encode_b64(salt)?;
    match argon2::Argon2::default().hash_password(password.as_bytes(), &salt) {
        Ok(hash) => Ok(hash.to_string()),
        Err(e) => Err(e),
    }
}

/// Calls `PasswordHash::new` on `phc` and then `Argon2::default().verify_password`.
/// Claimed: the outcome is `argon2_check` of the two strings (`None` when
/// `PasswordHash::new` refuses the string).
#[verifier::external_body]
fn argon2_verify(password: &str, phc: &str) -> (outcome: Option<bool>)
    ensures
        outcome == argon2_check(password@, phc@),
{
    match PasswordHash::new(phc) {
        Err(_) => None,
        Ok(parsed) => match argon2::Argon2::default().verify_password(password.as_bytes(), &parsed) {
            Ok(()) => Some(true),
            Err(_) => Some(false),
        },
    }
}

/// Number of random bytes in a generated secret.
pub const SECRET_BYTES: usize = 32;

/// Number of random bytes in a password salt.
pub const SALT_BYTES: usize = 16;

/// Whether `s` is the lowercase hex of some byte string of length `n`.
pub open spec fn is_hex_of_len(s: Seq<char>, n: nat) -> bool {
    exists|bytes: Seq<u8>| bytes.len() == n && s == hex_lower(bytes)
}

/// What drawing a fresh secret may give: 32 random bytes as lowercase hex, or
/// the failure of the random source.
pub open spec fn drawn_secret(secret: Result<String, CryptoError>) -> bool {
    match secret {
        Ok(s) => is_hex_of_len(s@, SECRET_BYTES as nat),
        Err(e) => e == CryptoError::Random,
    }
}

/// What drawing a fresh password salt may give: 16 random bytes, or (when the
/// random source fails) the hashing error.
pub open spec fn drawn_salt(salt: Result<Vec<u8>, CryptoError>) -> bool {
    match salt {
        Ok(s) => s@.len() == SALT_BYTES,
        Err(e) => e == CryptoError::PasswordHash,
    }
}

/// A fresh random salt of 16 bytes for a password hash.
pub fn generate_salt() -> (salt: Result<Vec<u8>, CryptoError>)
    ensures
        drawn_salt(salt),
{
    match random_bytes(SALT_BYTES) {
        Ok(bytes) => Ok(bytes),
        Err(_) => Err(CryptoError::PasswordHash),
    }
}

/// A fresh random secret: 32 random bytes as lowercase hex.
pub fn generate_secret() -> (secret: Result<String, CryptoError>)
    ensures
        drawn_secret(secret),
{
    match random_bytes(SECRET_BYTES) {
        Ok(bytes) => {
            let text = hex_lowercase(&bytes);
            assert(bytes@.len() == SECRET_BYTES && text@ == hex_lower(bytes@));
            Ok(text)
        },
        Err(_) => Err(CryptoError::Random),
    }
}

/// A generated token: the raw value handed out once, and the hash that is
/// stored.
#[derive(Debug, Clone)]
pub struct GeneratedToken {
    pub raw: String,
    pub hash: String,
}

impl GeneratedToken {
    /// The stored hash belongs to the raw value.
    pub open spec fn wf(&self) -> bool {
        self.hash@ == secret_hash(self.raw@)
    }

    /// The token whose raw value is `raw`, with its hash.
    pub fn from_raw(raw: String) -> (token: GeneratedToken)
        ensures
            token.raw == raw,
            token.wf(),
    {
        let hash = hash_secret(raw.as_str());
        GeneratedToken { raw, hash }
    }
}

/// Generates a random token together with its hash.
pub fn generate_token() -> (token: Result<GeneratedToken, CryptoError>)
    ensures
        token matches Ok(t) ==> t.wf() && is_hex_of_len(t.raw@, SECRET_BYTES as nat),
        token matches Err(e) ==> e == CryptoError::Random,
{
    let raw = generate_secret()?;
    Ok(GeneratedToken::from_raw(raw))
}

/// A generated API key: the full key handed out once and the hash that is
/// stored.
#[derive(Debug, Clone)]
pub struct GeneratedApiKey {
    pub full_key: String,
    pub hash: String,
}

/// The full text of an API key: its prefix, an underscore, and the secret.
pub open spec fn prefixed_key(prefix: Seq<char>, secret: Seq<char>) -> Seq<char> {
    prefix + seq!['_'] + secret
}

/// The API key `<prefix>_<secret>` and the hash of the full key.
pub fn api_key_from_secret(key_prefix: String, secret: &str) -> (key: GeneratedApiKey)
    ensures
        key.full_key@ == prefixed_key(key_prefix@, secret@),
        key.hash@ == secret_hash(key.full_key@),
{
    let mut full_key = key_prefix;
    full_key.append("_");
    full_key.append(secret);
    proof {
        reveal_strlit("_");
        assert(full_key@ == prefixed_key(key_prefix@, secret@));
    }
    let hash = hash_secret(full_key.as_str());
    GeneratedApiKey { full_key, hash }
}

/// Generates an API key `<prefix>_<secret>` and the hash of the full key.
pub fn generate_api_key(key_prefix: String) -> (key: Result<GeneratedApiKey, CryptoError>)
    ensures
        key matches Ok(k) ==> k.hash@ == secret_hash(k.full_key@) && exists|secret: Seq<char>|
            is_hex_of_len(secret, SECRET_BYTES as nat) && k.full_key@ == prefixed_key(
                key_prefix@,
                secret,
            ),
        key matches Err(e) ==> e == CryptoError::Random,
{
    let secret = generate_secret()?;
    Ok(api_key_from_secret(key_prefix, secret.as_str()))
}

/// The Argon2id hash (PHC string) of a password under a given salt.
pub fn hash_password_with_salt(password: &str, salt: &[u8]) -> (phc: Result<String, CryptoError>)
    requires
        salt@.len() >= 3,
    ensures
        phc matches Ok(h) ==> h@ == argon2_phc(password@, salt@) && argon2_check(password@, h@)
            == Some(true),
        phc matches Err(e) ==> e == CryptoError::PasswordHash,
        argon2_accepts(password@, salt@) ==> phc is Ok,
{
    match argon2_hash(password, salt) {
        Ok(h) => Ok(h),
        Err(_) => Err(CryptoError::PasswordHash),
    }
}

/// Hashes a password with Argon2id under a fresh random salt.
pub fn hash_password(password: &str) -> (phc: Result<String, CryptoError>)
    ensures
        phc matches Ok(h) ==> argon2_check(password@, h@) == Some(true) && exists|salt: Seq<u8>|
            salt.len() == SALT_BYTES && h@ == argon2_phc(password@, salt),
        phc matches Err(e) ==> e == CryptoError::PasswordHash,
{
    let salt = generate_salt()?;
    hash_password_with_salt(password, &salt)
}

/// What a password check comes to: the verdict where the stored string is a
/// password hash, else an error.
pub fn password_check_result(checked: Option<bool>) -> (matches: Result<bool, CryptoError>)
    ensures
        matches == (match checked {
            Some(b) => Ok(b),
            None => Err(CryptoError::PasswordVerify),
        }),
{
    match checked {
        Some(b) => Ok(b),
        None => Err(CryptoError::PasswordVerify),
    }
}

/// Checks a password against a stored PHC string.
pub fn verify_password(password: &str, phc: &str) -> (matches: Result<bool, CryptoError>)
    ensures
        matches == (match argon2_check(password@, phc@) {
            Some(b) => Ok(b),
            None => Err(CryptoError::PasswordVerify),
        }),
{
    password_check_result(argon2_verify(password, phc))
}

} // verus!
