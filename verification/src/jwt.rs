//! The JSON Web Key Set that publishes the server's RSA public key, so that
//! services can check the server's JWTs themselves.

use base64::Engine;
use rsa::pkcs8::DecodePrivateKey;
use rsa::traits::PublicKeyParts;
use vstd::prelude::*;

use crate::error::CryptoError;

verus! {

/// The error type of `pkcs8`, which `rsa` re-exports.
#[verifier::external_type_specification]
#[verifier::external_body]
pub struct ExPkcs8Error(rsa::pkcs8::Error);

/// The character of a 6-bit group in the URL-safe base64 alphabet.
pub open spec fn b64url_char(n: int) -> char {
    if n < 26 {
        (('A' as int) + n) as char
    } else if n < 52 {
        (('a' as int) + (n - 26)) as char
    } else if n < 62 {
        (('0' as int) + (n - 52)) as char
    } else if n == 62 {
        '-'
    } else {
        '_'
    }
}

/// URL-safe base64 without padding: each group of three bytes becomes four
/// characters, and a final group of one or two bytes becomes two or three.
pub open spec fn b64url(bytes: Seq<u8>) -> Seq<char>
    decreases bytes.len(),
{
    let b0 = bytes[0] as int;
    let b1 = bytes[1] as int;
    let b2 = bytes[2] as int;
    if bytes.len() == 0 {
        Seq::empty()
    } else if bytes.len() == 1 {
        seq![b64url_char(b0 / 4), b64url_char((b0 % 4) * 16)]
    } else if bytes.len() == 2 {
        seq![b64url_char(b0 / 4), b64url_char((b0 % 4) * 16 + b1 / 16), b64url_char((b1 % 16) * 4)]
    } else {
        seq![
            b64url_char(b0 / 4),
            b64url_char((b0 % 4) * 16 + b1 / 16),
            b64url_char((b1 % 16) * 4 + b2 / 64),
            b64url_char(b2 % 64),
        ] + b64url(bytes.subrange(3, bytes.len() as int))
    }
}

/// Calls `URL_SAFE_NO_PAD.encode` of `base64`. Claimed: URL-safe base64
/// (alphabet `A-Z a-z 0-9 - _`) without padding, as the crate documents.
#[verifier::external_body]
fn base64url_encode(data: &[u8]) -> (text: String)
    ensures
        text@ == b64url(data@),
{
    base64::engine::general_purpose::URL_SAFE_NO_PAD.encode(data)
}

/// The big-endian modulus and public exponent of the RSA private key in a
/// PKCS#8 PEM document; `None` when the document is not one.
pub uninterp spec fn rsa_pkcs8_public_parts(pem: Seq<char>) -> Option<(Seq<u8>, Seq<u8>)>;

/// Calls `RsaPrivateKey::from_pkcs8_pem` and reads the key's modulus and
/// exponent as big-endian bytes. Claimed: the outcome depends on the PEM text
/// alone.
#[verifier::external_body]
fn rsa_public_parts(pem: &str) -> (parts: Result<(Vec<u8>, Vec<u8>), rsa::pkcs8::Error>)
    ensures
        match parts {
            Ok((n, e)) => rsa_pkcs8_public_parts(pem@) == Some((n@, e@)),
            Err(_) => rsa_pkcs8_public_parts(pem@) is None,
        },
{
    let key = rsa::RsaPrivateKey::from_pkcs8_pem(pem)?;
    Ok((key.n().to_bytes_be(), key.e().to_bytes_be()))
}

/// One published key.
#[derive(Debug, Clone)]
pub struct Jwk {
    /// The key type, always `RSA`.
    pub kty: String,
    /// The signature algorithm, always `RS256`.
    pub alg: String,
    /// What the key is for, always `sig`.
    pub use_: String,
    /// The modulus, big-endian, URL-safe base64.
    pub n: String,
    /// The public exponent, big-endian, URL-safe base64.
    pub e: String,
    /// The key's id, always `1`.
    pub kid: String,
}

/// The published key set.
#[derive(Debug, Clone)]
pub struct Jwks {
    pub keys: Vec<Jwk>,
}

/// The one key of the published set, for an RSA public key with modulus `n`
/// and exponent `e` (both big-endian).
pub open spec fn published_key(key: Jwk, n: Seq<u8>, e: Seq<u8>) -> bool {
    &&& key.kty@ == "RSA"@
    &&& key.alg@ == "RS256"@
    &&& key.use_@ == "sig"@
    &&& key.kid@ == "1"@
    &&& key.n@ == b64url(n)
    &&& key.e@ == b64url(e)
}

impl Jwks {
    /// The key set that publishes the RSA public key with modulus `n` and
    /// exponent `e`, both big-endian.
    pub fn from_public_parts(n: &[u8], e: &[u8]) -> (jwks: Jwks)
        ensures
            jwks.keys@.len() == 1,
            published_key(jwks.keys@[0], n@, e@),
    {
        let key = Jwk {
            kty: String::from_str("RSA"),
            alg: String::from_str("RS256"),
            use_: String::from_str("sig"),
            n: base64url_encode(n),
            e: base64url_encode(e),
            kid: String::from_str("1"),
        };
        let mut keys = Vec::new();
        keys.push(key);
        Jwks { keys }
    }

    /// The key set that publishes the public half of a PKCS#8 RSA private key.
    pub fn from_private_pem(pem: &str) -> (jwks: Result<Jwks, CryptoError>)
        ensures
            match rsa_pkcs8_public_parts(pem@) {
                None => jwks == Err::<Jwks, CryptoError>(CryptoError::Jwt),
                Some((n, e)) => jwks matches Ok(set) && set.keys@.len() == 1 && published_key(
                    set.keys@[0],
                    n,
                    e,
                ),
            },
    {
        match rsa_public_parts(pem) {
            Ok((n, e)) => Ok(Jwks::from_public_parts(&n, &e)),
            Err(_) => Err(CryptoError::Jwt),
        }
    }
}

} // verus!
