//! Points in time, as microseconds since the Unix epoch.

use vstd::prelude::*;

verus! {

/// A point in time: microseconds since 1970-01-01T00:00:00Z (UTC).
#[derive(Debug, Clone, Copy, PartialEq, Eq, Structural)]
pub struct Timestamp {
    pub micros: i64,
}

/// Microseconds in one day.
pub const MICROS_PER_DAY: i64 = 86_400_000_000;

/// How long a service token stays valid: one day.
pub const SERVICE_TOKEN_TTL: i64 = MICROS_PER_DAY;

/// How long a user session stays valid: seven days.
pub const SESSION_TTL: i64 = 7 * MICROS_PER_DAY;

/// Calls `chrono::Utc::now`. Nothing is claimed of the value: it is the
/// system clock's.
#[verifier::external_body]
pub(crate) fn now() -> Timestamp {
    Timestamp { micros: chrono::Utc::now().timestamp_micros() }
}

impl Timestamp {
    /// This point in time moved by `delta` microseconds, where that is
    /// representable.
    pub fn checked_add(self, delta: i64) -> (moved: Option<Timestamp>)
        ensures
            moved == self.checked_add_spec(delta),
    {
        match self.micros.checked_add(delta) {
            Some(m) => Some(Timestamp { micros: m }),
            None => None,
        }
    }

    /// Whether this point lies strictly after `other`.
    pub fn is_after(self, other: Timestamp) -> (after: bool)
        ensures
            after == (self.micros > other.micros),
    {
        self.micros > other.micros
    }
}

/// When a session opened at `now` expires.
pub fn session_expiry(now: Timestamp) -> (expires_at: Option<Timestamp>)
    ensures
        expires_at == now.checked_add_spec(SESSION_TTL),
{
    now.checked_add(SESSION_TTL)
}

impl Timestamp {
    /// The specification of `checked_add`.
    pub open spec fn checked_add_spec(self, delta: i64) -> Option<Timestamp> {
        if i64::MIN <= self.micros + delta <= i64::MAX {
            Some(Timestamp { micros: (self.micros + delta) as i64 })
        } else {
            None
        }
    }
}

/// The expiry of a rotated refresh token: the rotation keeps the token's
/// lifetime, so the new token expires `expires_at - issued_at` after `now`.
/// `None` where that point is not representable.
pub fn rotation_expiry(issued_at: Timestamp, expires_at: Timestamp, now: Timestamp) -> (new_expiry:
    Option<Timestamp>)
    ensures
        new_expiry == (if i64::MIN <= now.micros + (expires_at.micros - issued_at.micros)
            <= i64::MAX {
            Some(Timestamp { micros: (now.micros + (expires_at.micros - issued_at.micros)) as i64 })
        } else {
            None::<Timestamp>
        }),
        new_expiry matches Some(e) ==> e.micros - now.micros == expires_at.micros
            - issued_at.micros,
{
    let lifetime = (expires_at.micros as i128) - (issued_at.micros as i128);
    let target = (now.micros as i128) + lifetime;
    if target < (i64::MIN as i128) || target > (i64::MAX as i128) {
        None
    } else {
        Some(Timestamp { micros: target as i64 })
    }
}

} // verus!
