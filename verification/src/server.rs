//! Authentication of incoming requests by their service token.

use vstd::prelude::*;

use crate::auth::service::{
    first_valid_vault, law_expired_token_is_refused, law_issued_token_is_accepted,
    validate_service_token_at, ServiceKeyStore, ServiceToken,
};
use crate::crypto::secret_hash;
use crate::text::text_eq;
use crate::time::{now, Timestamp};

verus! {

/// HTTP status 200: the request succeeded.
pub const OK: u16 = 200;

/// HTTP status 401: the caller is not authenticated.
pub const UNAUTHORIZED: u16 = 401;

/// HTTP status 404: the addressed thing does not exist (in the caller's vault).
pub const NOT_FOUND: u16 = 404;

/// HTTP status 409: the request conflicts with existing data.
pub const CONFLICT: u16 = 409;

/// HTTP status 500: the server failed.
pub const INTERNAL_SERVER_ERROR: u16 = 500;

/// The scheme that precedes a token in an `Authorization` header.
pub open spec fn bearer_prefix() -> Seq<char> {
    seq!['B', 'e', 'a', 'r', 'e', 'r', ' ']
}

/// A request made by an authenticated service, in the vault of that service.
#[derive(Debug, Clone, Copy)]
pub struct AuthService(pub u128);

/// The token of a bearer `Authorization` header: what follows `Bearer `.
pub fn bearer_token(header: &str) -> (token: Option<&str>)
    ensures
        token is Some <==> header@.len() >= 7 && header@.take(7) == bearer_prefix(),
        token matches Some(t) ==> t@ == header@.skip(7),
{
    let prefix = "Bearer ";
    proof {
        reveal_strlit("Bearer ");
        assert(prefix@ == bearer_prefix());
    }
    let len = header.unicode_len();
    if len < 7 {
        return None;
    }
    let head = header.substring_char(0, 7);
    if text_eq(head, prefix) {
        Some(header.substring_char(7, len))
    } else {
        None
    }
}

/// The vault of the service that sent a request with this `Authorization`
/// header (if any) at time `now`, or the status that refuses the request.
pub fn authenticate_at(store: &ServiceKeyStore, authorization: Option<&str>, now: Timestamp) -> (vault:
    Result<u128, u16>)
    ensures
        vault == authenticate_at_spec(store, authorization, now),
{
    let header = match authorization {
        Some(h) => h,
        None => return Err(UNAUTHORIZED),
    };
    let token = match bearer_token(header) {
        Some(t) => t,
        None => return Err(UNAUTHORIZED),
    };
    match validate_service_token_at(store, token, now) {
        Some(v) => Ok(v),
        None => Err(UNAUTHORIZED),
    }
}

/// The authenticated service behind a request's `Authorization` header, judged
/// at the current time; requests without a valid service token get 401.
pub fn authenticate(store: &ServiceKeyStore, authorization: Option<&str>) -> (service: Result<
    AuthService,
    u16,
>)
    ensures
        exists|now: Timestamp|
            #![trigger authenticate_at_spec(store, authorization, now)]
            service == (match authenticate_at_spec(store, authorization, now) {
                Ok(v) => Ok(AuthService(v)),
                Err(s) => Err(s),
            }),
{
    let t = now();
    match authenticate_at(store, authorization, t) {
        Ok(v) => Ok(AuthService(v)),
        Err(s) => Err(s),
    }
}

/// The specification of `authenticate_at`.
pub open spec fn authenticate_at_spec(store: &ServiceKeyStore, authorization: Option<&str>, now: Timestamp) -> Result<u128, u16> {
    match authorization {
        None => Err(UNAUTHORIZED),
        Some(h) => if h@.len() >= 7 && h@.take(7) == bearer_prefix() {
            match first_valid_vault(store.tokens(), secret_hash(h@.skip(7)), now) {
                Some(v) => Ok(v),
                None => Err(UNAUTHORIZED),
            }
        } else {
            Err(UNAUTHORIZED)
        },
    }
}

/// A service that logged in is let in, in its vault: a request whose
/// `Authorization` header is `Bearer ` followed by the raw service token is
/// authenticated for the vault the token was issued to, until the token
/// expires (given that no earlier token has the same hash).
pub proof fn law_issued_service_token_authenticates(
    store: &ServiceKeyStore,
    earlier: Seq<ServiceToken>,
    issued: ServiceToken,
    raw: Seq<char>,
    header: &str,
    now: Timestamp,
)
    requires
        store.tokens() == earlier.push(issued),
        issued.hash@ == secret_hash(raw),
        forall|i: int| 0 <= i < earlier.len() ==> earlier[i].hash@ != issued.hash@,
        now.micros < issued.expires_at.micros,
        header@ == bearer_prefix() + raw,
    ensures
        authenticate_at_spec(store, Some(header), now) == Ok::<u128, u16>(issued.vault_id),
{
    assert(header@.take(7) == bearer_prefix());
    assert(header@.skip(7) == raw);
    law_issued_token_is_accepted(earlier, issued, raw, now);
}

/// A service token stops letting requests in when it expires: when every
/// recorded token with the hash of `raw` has expired by `now`, a request whose
/// `Authorization` header is `Bearer ` followed by `raw` is refused with 401;
/// so is a request without the header, or whose header is not a bearer token.
pub proof fn law_expired_service_token_is_refused(
    store: &ServiceKeyStore,
    raw: Seq<char>,
    header: &str,
    other: &str,
    now: Timestamp,
)
    requires
        header@ == bearer_prefix() + raw,
        forall|i: int|
            0 <= i < store.tokens().len() && (#[trigger] store.tokens()[i]).hash@ == secret_hash(raw)
                ==> store.tokens()[i].expires_at.micros <= now.micros,
    ensures
        authenticate_at_spec(store, Some(header), now) == Err::<u128, u16>(UNAUTHORIZED),
        authenticate_at_spec(store, None, now) == Err::<u128, u16>(UNAUTHORIZED),
        !(other@.len() >= 7 && other@.take(7) == bearer_prefix()) ==> authenticate_at_spec(
            store,
            Some(other),
            now,
        ) == Err::<u128, u16>(UNAUTHORIZED),
{
    assert(header@.take(7) == bearer_prefix());
    assert(header@.skip(7) == raw);
    law_expired_token_is_refused(store.tokens(), secret_hash(raw), now);
}

} // verus!
