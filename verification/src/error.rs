//! Error types.

use vstd::prelude::*;

verus! {

/// Errors in the server configuration.
#[derive(Debug, Clone, PartialEq, Eq, Structural)]
pub enum ConfigError {
    EmptyCredentials,
    EmptyTokens,
}

/// Errors in the list of service keys.
#[derive(Debug, Clone, PartialEq, Eq)]
pub enum ClientConfigError {
    EmptyServiceKeys,
    /// Two services hold the same key: the later one first, then the earlier.
    KeyCollision(String, String),
}

/// Errors of the cryptographic operations.
#[derive(Debug, Clone, Copy, PartialEq, Eq, Structural)]
pub enum CryptoError {
    PasswordHash,
    PasswordVerify,
    TokenVerify,
    Jwt,
    /// The operating system's random source failed.
    Random,
}

/// What the logic reads of a failed database operation.
#[derive(Debug, Clone, Copy, PartialEq, Eq, Structural)]
pub enum DbError {
    /// The operation expected a row and found none.
    RowNotFound,
    /// A unique constraint was violated (SQLSTATE 23505).
    UniqueViolation,
    /// Any other failure.
    Other,
}

/// Errors of the server's operations.
#[derive(Debug, Clone, PartialEq, Eq)]
pub enum ShlossError {
    Config(ConfigError),
    ClientConfig(ClientConfigError),
    Crypto(CryptoError),
    Database(DbError),
}

/// The result of a server operation.
pub type ShlossResult<T> = Result<T, ShlossError>;

} // verus!
