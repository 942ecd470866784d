//! Services: their keys, and the short-lived tokens they log in with.
//!
//! A service presents its raw key once to obtain a service token; every other
//! request carries that token. The store maps the hash of each service key to
//! the vault the service works in, and remembers every token it issued.

use vstd::hash_map::StringHashMap;
use vstd::prelude::*;

use crate::config::ClientConfig;
use crate::crypto::{generate_token, hash_secret, secret_hash, GeneratedToken};
use crate::error::CryptoError;
use crate::time::{now, Timestamp, SERVICE_TOKEN_TTL};

verus! {

/// A service token that was issued: the hash of its raw value, the vault of the
/// service it was issued to, and when it was issued and expires.
#[derive(Debug, Clone)]
pub struct ServiceToken {
    pub hash: String,
    pub vault_id: u128,
    pub created_at: Timestamp,
    pub expires_at: Timestamp,
}

/// Service keys (by hash) with their vaults, and the issued service tokens.
pub struct ServiceKeyStore {
    key_hashes: StringHashMap<u128>,
    service_tokens: Vec<ServiceToken>,
}

/// Whether a stored token answers to `hash` at time `now`.
pub open spec fn token_valid(token: ServiceToken, hash: Seq<char>, now: Timestamp) -> bool {
    token.hash@ == hash && token.expires_at.micros > now.micros
}

/// The vault of the first token in `tokens` that answers to `hash` at `now`.
pub open spec fn first_valid_vault(tokens: Seq<ServiceToken>, hash: Seq<char>, now: Timestamp) -> Option<u128>
    decreases tokens.len(),
{
    if tokens.len() == 0 {
        None
    } else if token_valid(tokens[0], hash, now) {
        Some(tokens[0].vault_id)
    } else {
        first_valid_vault(tokens.drop_first(), hash, now)
    }
}

/// The expiry of a service token issued at `created_at`: one day later, or the
/// last representable instant where one day later is not representable.
pub open spec fn service_token_expiry(created_at: Timestamp) -> Timestamp {
    match created_at.checked_add_spec(SERVICE_TOKEN_TTL) {
        Some(t) => t,
        None => Timestamp { micros: i64::MAX },
    }
}

/// The map from key hash to vault that registering `entries` in order gives;
/// a later entry with the same hash replaces an earlier one.
pub open spec fn key_map(entries: Seq<(Seq<char>, u128)>) -> Map<Seq<char>, u128>
    decreases entries.len(),
{
    if entries.len() == 0 {
        Map::empty()
    } else {
        key_map(entries.drop_last()).insert(entries.last().0, entries.last().1)
    }
}

impl ServiceKeyStore {
    /// The registered service keys: hash of the key to vault.
    pub closed spec fn keys(&self) -> Map<Seq<char>, u128> {
        self.key_hashes@
    }

    /// The issued service tokens, oldest first.
    pub closed spec fn tokens(&self) -> Seq<ServiceToken> {
        self.service_tokens@
    }

    /// The issued service tokens, oldest first.
    pub fn service_tokens(&self) -> (tokens: &Vec<ServiceToken>)
        ensures
            tokens@ == self.tokens(),
    {
        &self.service_tokens
    }

    /// An empty store.
    pub fn new() -> (store: Self)
        ensures
            store.keys() == Map::<Seq<char>, u128>::empty(),
            store.tokens() == Seq::<ServiceToken>::empty(),
    {
        ServiceKeyStore { key_hashes: StringHashMap::new(), service_tokens: Vec::new() }
    }

    /// The vault of the service whose raw key is `key`, if it is registered.
    pub fn verify_key(&self, key: &str) -> (vault_id: Option<u128>)
        ensures
            vault_id == (if self.keys().contains_key(secret_hash(key@)) {
                Some(self.keys()[secret_hash(key@)])
            } else {
                None::<u128>
            }),
    {
        let hash = hash_secret(key);
        match self.key_hashes.get(hash.as_str()) {
            Some(v) => Some(*v),
            None => None,
        }
    }

    /// Registers a key hash for a vault; a hash registered before is
    /// re-assigned.
    fn register(&mut self, hash: String, vault_id: u128)
        ensures
            final(self).keys() == old(self).keys().insert(hash@, vault_id),
            final(self).tokens() == old(self).tokens(),
    {
        self.key_hashes.insert(hash, vault_id);
    }

    /// A store for tests: the `i`-th raw key opens the vault numbered `i`.
    pub fn with_test_keys(raw_keys: &[&'static str]) -> (store: Self)
        requires
            raw_keys@.len() <= u128::MAX,
        ensures
            store.keys() == key_map(
                Seq::new(raw_keys@.len(), |i: int| (secret_hash(raw_keys@[i]@), i as u128)),
            ),
            store.tokens() == Seq::<ServiceToken>::empty(),
    {
        let mut store = Self::new();
        let ghost entries = Seq::new(raw_keys@.len(), |i: int| (secret_hash(raw_keys@[i]@), i as u128));
        let mut i: usize = 0;
        while i < raw_keys.len()
            invariant
                i <= raw_keys@.len(),
                entries == Seq::new(raw_keys@.len(), |i: int| (secret_hash(raw_keys@[i]@), i as u128)),
                store.keys() == key_map(entries.take(i as int)),
                store.tokens() == Seq::<ServiceToken>::empty(),
            decreases raw_keys@.len() - i,
        {
            let hash = hash_secret(raw_keys[i]);
            store.register(hash, i as u128);
            assert(entries.take(i + 1).drop_last() == entries.take(i as int));
            i = i + 1;
        }
        assert(entries.take(raw_keys@.len() as int) == entries);
        store
    }

    /// The store that a client configuration describes, with no tokens yet.
    pub fn from_config(config: &ClientConfig) -> (store: Self)
        ensures
            store.keys() == key_map(config.keys@.map_values(|k: crate::config::ServiceKey| (k.hash@, k.vault_id))),
            store.tokens() == Seq::<ServiceToken>::empty(),
    {
        let mut store = Self::new();
        let ghost entries = config.keys@.map_values(|k: crate::config::ServiceKey| (k.hash@, k.vault_id));
        let mut i: usize = 0;
        while i < config.keys.len()
            invariant
                i <= config.keys@.len(),
                entries == config.keys@.map_values(|k: crate::config::ServiceKey| (k.hash@, k.vault_id)),
                store.keys() == key_map(entries.take(i as int)),
                store.tokens() == Seq::<ServiceToken>::empty(),
            decreases config.keys@.len() - i,
        {
            let key = &config.keys[i];
            store.register(key.hash.clone(), key.vault_id);
            assert(entries.take(i + 1).drop_last() == entries.take(i as int));
            i = i + 1;
        }
        assert(entries.take(config.keys@.len() as int) == entries);
        store
    }
}

impl Default for ServiceKeyStore {
    /// An empty store.
    fn default() -> (store: Self)
        ensures
            store.keys() == Map::<Seq<char>, u128>::empty(),
            store.tokens() == Seq::<ServiceToken>::empty(),
    {
        Self::new()
    }
}

/// Records a freshly generated token for `vault_id`, issued at `created_at`.
pub fn record_service_token(
    store: &mut ServiceKeyStore,
    token: &GeneratedToken,
    vault_id: u128,
    created_at: Timestamp,
)
    ensures
        final(store).keys() == old(store).keys(),
        final(store).tokens() == old(store).tokens().push(
            ServiceToken {
                hash: token.hash,
                vault_id,
                created_at,
                expires_at: service_token_expiry(created_at),
            },
        ),
{
    let expires_at = match created_at.checked_add(SERVICE_TOKEN_TTL) {
        Some(t) => t,
        None => Timestamp { micros: i64::MAX },
    };
    store.service_tokens.push(
        ServiceToken { hash: token.hash.clone(), vault_id, created_at, expires_at },
    );
}

/// Logs a service in with its raw key. An unknown key gets `Ok(None)` and
/// leaves the store unchanged; a known key gets a fresh token, which the store
/// records for the key's vault with the current time.
pub fn login_service(store: &mut ServiceKeyStore, raw_key: &str) -> (token: Result<
    Option<GeneratedToken>,
    CryptoError,
>)
    ensures
        final(store).keys() == old(store).keys(),
        !old(store).keys().contains_key(secret_hash(raw_key@)) ==> token == Ok::<
            Option<GeneratedToken>,
            CryptoError,
        >(None) && final(store).tokens() == old(store).tokens(),
        old(store).keys().contains_key(secret_hash(raw_key@)) ==> match token {
            Ok(Some(t)) => t.wf() && exists|created_at: Timestamp|
                final(store).tokens() == old(store).tokens().push(
                    ServiceToken {
                        hash: t.hash,
                        vault_id: old(store).keys()[secret_hash(raw_key@)],
                        created_at,
                        expires_at: service_token_expiry(created_at),
                    },
                ),
            Ok(None) => false,
            Err(e) => e == CryptoError::Random && final(store).tokens() == old(store).tokens(),
        },
{
    let vault_id = match store.verify_key(raw_key) {
        Some(v) => v,
        None => return Ok(None),
    };
    let token = generate_token()?;
    let created_at = now();
    record_service_token(store, &token, vault_id, created_at);
    Ok(Some(token))
}

/// The vault of a raw service token at time `now`: that of the first recorded
/// token with the same hash that has not expired.
pub fn validate_service_token_at(store: &ServiceKeyStore, raw_token: &str, now: Timestamp) -> (vault_id:
    Option<u128>)
    ensures
        vault_id == first_valid_vault(store.tokens(), secret_hash(raw_token@), now),
{
    let hash = hash_secret(raw_token);
    assert(store.service_tokens@.skip(0) == store.service_tokens@);
    let mut i: usize = 0;
    while i < store.service_tokens.len()
        invariant
            i <= store.service_tokens@.len(),
            hash@ == secret_hash(raw_token@),
            first_valid_vault(store.service_tokens@, hash@, now) == first_valid_vault(
                store.service_tokens@.skip(i as int),
                hash@,
                now,
            ),
        decreases store.service_tokens@.len() - i,
    {
        let t = &store.service_tokens[i];
        assert(store.service_tokens@.skip(i as int)[0] == store.service_tokens@[i as int]);
        assert(store.service_tokens@.skip(i as int).drop_first() == store.service_tokens@.skip(
            i + 1,
        ));
        if t.hash == hash && t.expires_at.is_after(now) {
            return Some(t.vault_id);
        }
        i = i + 1;
    }
    None
}

/// The vault of a raw service token now.
pub fn validate_service_token(store: &ServiceKeyStore, raw_token: &str) -> (vault_id: Option<u128>)
    ensures
        exists|now: Timestamp|
            vault_id == first_valid_vault(store.tokens(), secret_hash(raw_token@), now),
{
    let now = now();
    validate_service_token_at(store, raw_token, now)
}

/// A service token is accepted, for the vault it was issued to, until it
/// expires: once a token has been recorded and no earlier recorded token has the
/// same hash, looking its raw value up at any time before its expiry yields its
/// vault.
pub proof fn law_issued_token_is_accepted(
    earlier: Seq<ServiceToken>,
    issued: ServiceToken,
    raw: Seq<char>,
    now: Timestamp,
)
    requires
        issued.hash@ == secret_hash(raw),
        forall|i: int| 0 <= i < earlier.len() ==> earlier[i].hash@ != issued.hash@,
        now.micros < issued.expires_at.micros,
    ensures
        first_valid_vault(earlier.push(issued), secret_hash(raw), now) == Some(issued.vault_id),
    decreases earlier.len(),
{
    if earlier.len() == 0 {
        assert(earlier.push(issued).drop_first() == Seq::<ServiceToken>::empty());
    } else {
        assert(earlier.push(issued).drop_first() == earlier.drop_first().push(issued));
        law_issued_token_is_accepted(earlier.drop_first(), issued, raw, now);
    }
}

/// Only issued, unexpired tokens are accepted: a lookup that yields a vault
/// found a recorded token with that hash and that vault which had not expired.
pub proof fn law_accepted_token_was_issued(tokens: Seq<ServiceToken>, hash: Seq<char>, now: Timestamp)
    ensures
        first_valid_vault(tokens, hash, now) matches Some(v) ==> exists|i: int|
            0 <= i < tokens.len() && token_valid(tokens[i], hash, now) && tokens[i].vault_id == v,
    decreases tokens.len(),
{
    if tokens.len() > 0 && !token_valid(tokens[0], hash, now) {
        law_accepted_token_was_issued(tokens.drop_first(), hash, now);
        if first_valid_vault(tokens, hash, now) is Some {
            let v = first_valid_vault(tokens, hash, now)->Some_0;
            let i = choose|i: int|
                0 <= i < tokens.drop_first().len() && token_valid(tokens.drop_first()[i], hash, now)
                    && tokens.drop_first()[i].vault_id == v;
            assert(tokens[i + 1] == tokens.drop_first()[i]);
        }
    }
}

/// Expired tokens are refused: when every recorded token with a given hash has
/// expired by `now`, the lookup yields no vault.
pub proof fn law_expired_token_is_refused(tokens: Seq<ServiceToken>, hash: Seq<char>, now: Timestamp)
    requires
        forall|i: int|
            0 <= i < tokens.len() && (#[trigger] tokens[i]).hash@ == hash ==> tokens[i].expires_at.micros
                <= now.micros,
    ensures
        first_valid_vault(tokens, hash, now) == None::<u128>,
    decreases tokens.len(),
{
    if tokens.len() > 0 {
        assert forall|i: int|
            0 <= i < tokens.drop_first().len() && (#[trigger] tokens.drop_first()[i]).hash@ == hash implies tokens.drop_first()[i].expires_at.micros
            <= now.micros by {
            assert(tokens.drop_first()[i] == tokens[i + 1]);
        }
        law_expired_token_is_refused(tokens.drop_first(), hash, now);
    }
}

/// One key, one vault: when no two listed keys share a hash (what
/// `ClientConfig::validate` accepts), the store built from the configuration
/// opens, for every listed key, exactly that key's vault.
pub proof fn law_distinct_keys_keep_their_vaults(keys: Seq<crate::config::ServiceKey>)
    requires
        crate::config::distinct_hashes(keys, keys.len() as int),
    ensures
        forall|i: int|
            0 <= i < keys.len() ==> {
                let m = key_map(keys.map_values(|k: crate::config::ServiceKey| (k.hash@, k.vault_id)));
                &&& m.contains_key(#[trigger] keys[i].hash@)
                &&& m[keys[i].hash@] == keys[i].vault_id
            },
    decreases keys.len(),
{
    let entries = keys.map_values(|k: crate::config::ServiceKey| (k.hash@, k.vault_id));
    if keys.len() > 0 {
        let prefix = keys.drop_last();
        assert(entries.drop_last() == prefix.map_values(|k: crate::config::ServiceKey| (k.hash@, k.vault_id)));
        assert(crate::config::distinct_hashes(prefix, prefix.len() as int)) by {
            assert forall|i: int, j: int| 0 <= i < j < prefix.len() implies prefix[i].hash@ != prefix[j].hash@ by {
                assert(prefix[i] == keys[i] && prefix[j] == keys[j]);
            }
        }
        law_distinct_keys_keep_their_vaults(prefix);
        assert forall|i: int| 0 <= i < keys.len() implies {
            let m = key_map(entries);
            &&& m.contains_key(#[trigger] keys[i].hash@)
            &&& m[keys[i].hash@] == keys[i].vault_id
        } by {
            if i < keys.len() - 1 {
                assert(prefix[i] == keys[i]);
                assert(keys[i].hash@ != keys[keys.len() - 1].hash@);
            }
        }
    }
}

} // verus!
