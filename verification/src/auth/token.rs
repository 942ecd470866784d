//! Checking a token of any kind the server issues.

use vstd::prelude::*;

use crate::config::TokenKind;
use crate::crypto::{hash_secret, secret_hash};

verus! {

/// A raw token and its kind.
#[derive(Debug, Clone)]
pub struct TokenToValidate {
    pub raw: String,
    pub kind: TokenKind,
}

/// How a token of some kind is checked.
#[derive(Debug, Clone)]
pub enum StoredTokenLookup {
    /// Find the user of the unrevoked, unexpired opaque token with this hash.
    Opaque { hash: String },
    /// Find the user of the unrevoked, unexpired refresh token with this hash.
    Refresh { hash: String },
    /// Verify the JWT's signature and read its subject.
    Jwt { token: String },
}

impl TokenToValidate {
    /// Stored tokens are looked up by the hash of the raw token; JWTs are
    /// checked by their signature.
    pub fn lookup(self) -> (lookup: StoredTokenLookup)
        ensures
            match self.kind {
                TokenKind::Opague => lookup matches StoredTokenLookup::Opaque { hash } && hash@ == secret_hash(self.raw@),
                TokenKind::Refresh => lookup matches StoredTokenLookup::Refresh { hash } && hash@ == secret_hash(self.raw@),
                TokenKind::Jwt => lookup matches StoredTokenLookup::Jwt { token } && token == self.raw,
            },
    {
        match self.kind {
            TokenKind::Opague => StoredTokenLookup::Opaque { hash: hash_secret(self.raw.as_str()) },
            TokenKind::Refresh => StoredTokenLookup::Refresh { hash: hash_secret(self.raw.as_str()) },
            TokenKind::Jwt => StoredTokenLookup::Jwt { token: self.raw },
        }
    }
}

} // verus!
