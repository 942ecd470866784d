//! Configuration: the server's settings and the list of service keys.

use vstd::prelude::*;

use crate::error::ClientConfigError;

verus! {

/// Where the server finds its database and which address it listens on.
#[derive(Debug, Clone)]
pub struct ShlossConfig {
    pub database_url: String,
    pub host: String,
    pub port: usize,
}

impl Default for ShlossConfig {
    /// The defaults: `postgresql:///shloss` on `127.0.0.1:3000`.
    fn default() -> (config: Self)
        ensures
            config.database_url@ == "postgresql:///shloss"@,
            config.host@ == "127.0.0.1"@,
            config.port == 3000,
    {
        ShlossConfig {
            port: 3000,
            host: String::from_str("127.0.0.1"),
            database_url: String::from_str("postgresql:///shloss"),
        }
    }
}

/// The kinds of token the server knows.
#[derive(Debug, Clone, Copy, PartialEq, Eq, Structural)]
pub enum TokenKind {
    Opague,
    Jwt,
    Refresh,
}

/// The kinds of user credential the server knows.
#[derive(Debug, Clone, Copy, PartialEq, Eq, Structural)]
pub enum CredentialKind {
    ApiKey,
    Password,
}

/// A service key as listed in `client_credentials.toml`: the service's name,
/// the hash of its key, and the vault it works in.
#[derive(Debug, Clone)]
pub struct ServiceKey {
    pub name: String,
    pub hash: String,
    pub vault_id: u128,
}

/// The list of service keys.
#[derive(Debug, Clone)]
pub struct ClientConfig {
    pub keys: Vec<ServiceKey>,
}

/// No two of the first `n` keys share a hash.
pub open spec fn distinct_hashes(keys: Seq<ServiceKey>, n: int) -> bool {
    forall|i: int, j: int| 0 <= i < j < n ==> keys[i].hash@ != keys[j].hash@
}

/// `i` is the index of the first key named `name`.
pub open spec fn first_named(keys: Seq<ServiceKey>, name: Seq<char>, i: int) -> bool {
    &&& 0 <= i < keys.len()
    &&& keys[i].name@ == name
    &&& forall|k: int| 0 <= k < i ==> keys[k].name@ != name
}

/// No key is named `name`.
pub open spec fn none_named(keys: Seq<ServiceKey>, name: Seq<char>) -> bool {
    forall|k: int| 0 <= k < keys.len() ==> keys[k].name@ != name
}

/// Some key has the hash `hash`.
pub open spec fn hash_listed(keys: Seq<ServiceKey>, hash: Seq<char>) -> bool {
    exists|k: int| 0 <= k < keys.len() && keys[k].hash@ == hash
}

/// What adding a service key to a configuration amounts to.
#[derive(Debug, Clone, Copy, PartialEq, Eq, Structural)]
pub enum AppendDecision {
    /// Some listed key already has the new key's hash.
    Collision,
    /// A key with the service's name exists, at this index; its hash would be
    /// replaced.
    NameTaken(usize),
    /// The key is new and would be appended.
    Append,
}

impl ClientConfig {
    /// A configuration with one service key.
    pub fn with_first_key(name: &str, hash: &str, vault_id: u128) -> (config: Self)
        ensures
            config.keys@.len() == 1,
            config.keys@[0].name@ == name@,
            config.keys@[0].hash@ == hash@,
            config.keys@[0].vault_id == vault_id,
    {
        let mut keys = Vec::new();
        keys.push(ServiceKey { name: name.to_owned(), hash: hash.to_owned(), vault_id });
        ClientConfig { keys }
    }

    /// Checks that there is at least one key and that no two keys share a hash.
    /// On a collision the error names the service of the first key whose hash
    /// was listed before, then the service that listed it first.
    pub fn validate(&self) -> (valid: Result<(), ClientConfigError>)
        ensures
            self.keys@.len() == 0 ==> valid == Err::<(), ClientConfigError>(
                ClientConfigError::EmptyServiceKeys,
            ),
            self.keys@.len() > 0 && distinct_hashes(self.keys@, self.keys@.len() as int) ==> valid
                == Ok::<(), ClientConfigError>(()),
            self.keys@.len() > 0 && !distinct_hashes(self.keys@, self.keys@.len() as int) ==> (
            valid matches Err(ClientConfigError::KeyCollision(later, earlier)) && exists|
                i: int,
                j: int,
            |
                0 <= i < j < self.keys@.len() && self.keys@[i].hash@ == self.keys@[j].hash@
                    && distinct_hashes(self.keys@, j) && later@ == self.keys@[j].name@ && earlier@
                    == self.keys@[i].name@),
    {
        if self.keys.len() == 0 {
            return Err(ClientConfigError::EmptyServiceKeys);
        }
        let mut seen: vstd::hash_map::StringHashMap<usize> = vstd::hash_map::StringHashMap::new();
        let mut j: usize = 0;
        while j < self.keys.len()
            invariant
                j <= self.keys@.len(),
                distinct_hashes(self.keys@, j as int),
                forall|h: Seq<char>|
                    #![trigger seen@.contains_key(h)]
                    seen@.contains_key(h) ==> 0 <= seen@[h] < j && self.keys@[seen@[h] as int].hash@
                        == h,
                forall|i: int| 0 <= i < j ==> seen@.contains_key(#[trigger] self.keys@[i].hash@),
            decreases self.keys@.len() - j,
        {
            let key = &self.keys[j];
            match seen.get(key.hash.as_str()) {
                Some(i) => {
                    let earlier = &self.keys[*i];
                    return Err(
                        ClientConfigError::KeyCollision(key.name.clone(), earlier.name.clone()),
                    );
                },
                None => {
                    seen.insert(key.hash.clone(), j);
                },
            }
            j = j + 1;
        }
        Ok(())
    }

    /// The index of the first key named `name`.
    pub fn find_key(&self, name: &str) -> (index: Option<usize>)
        ensures
            index matches Some(i) ==> first_named(self.keys@, name@, i as int),
            index is None ==> none_named(self.keys@, name@),
    {
        let mut i: usize = 0;
        while i < self.keys.len()
            invariant
                i <= self.keys@.len(),
                forall|k: int| 0 <= k < i ==> self.keys@[k].name@ != name@,
            decreases self.keys@.len() - i,
        {
            if crate::text::text_eq(self.keys[i].name.as_str(), name) {
                return Some(i);
            }
            i = i + 1;
        }
        None
    }

    /// What adding a key with this name and hash amounts to: a collision if
    /// any listed key has the hash; else the index of the first key with the
    /// name, if there is one; else a new entry.
    pub fn append_decision(&self, name: &str, hash: &str) -> (decision: AppendDecision)
        ensures
            hash_listed(self.keys@, hash@) ==> decision == AppendDecision::Collision,
            !hash_listed(self.keys@, hash@) && none_named(self.keys@, name@) ==> decision
                == AppendDecision::Append,
            !hash_listed(self.keys@, hash@) && !none_named(self.keys@, name@) ==> (
            decision matches AppendDecision::NameTaken(i) && first_named(
                self.keys@,
                name@,
                i as int,
            )),
    {
        let mut k: usize = 0;
        while k < self.keys.len()
            invariant
                k <= self.keys@.len(),
                forall|m: int| 0 <= m < k ==> self.keys@[m].hash@ != hash@,
            decreases self.keys@.len() - k,
        {
            if crate::text::text_eq(self.keys[k].hash.as_str(), hash) {
                return AppendDecision::Collision;
            }
            k = k + 1;
        }
        match self.find_key(name) {
            Some(i) => AppendDecision::NameTaken(i),
            None => AppendDecision::Append,
        }
    }

    /// Adds the key of a new service after the listed ones, which stay as they
    /// were.
    pub fn append_key(&mut self, name: String, hash: String, vault_id: u128)
        ensures
            final(self).keys@ == old(self).keys@.push(ServiceKey { name, hash, vault_id }),
    {
        self.keys.push(ServiceKey { name, hash, vault_id });
    }

    /// Replaces the hash of the key at `index`; names, vaults and all other
    /// keys stay as they were.
    pub fn set_key_hash(&mut self, index: usize, hash: String)
        requires
            index < old(self).keys@.len(),
        ensures
            final(self).keys@.len() == old(self).keys@.len(),
            final(self).keys@[index as int].hash@ == hash@,
            final(self).keys@[index as int].name@ == old(self).keys@[index as int].name@,
            final(self).keys@[index as int].vault_id == old(self).keys@[index as int].vault_id,
            forall|k: int|
                0 <= k < old(self).keys@.len() && k != index ==> final(self).keys@[k] == old(
                    self,
                ).keys@[k],
    {
        let key = ServiceKey {
            name: self.keys[index].name.clone(),
            hash,
            vault_id: self.keys[index].vault_id,
        };
        self.keys.set(index, key);
    }

    /// Gives the first key named `name` a new hash, keeping its vault. `false`
    /// (and nothing changed) when no key has that name.
    pub fn rotate_key(&mut self, name: &str, hash: String) -> (rotated: bool)
        ensures
            rotated == !none_named(old(self).keys@, name@),
            !rotated ==> final(self).keys@ == old(self).keys@,
            final(self).keys@.len() == old(self).keys@.len(),
            forall|k: int|
                0 <= k < old(self).keys@.len() ==> (#[trigger] final(self).keys@[k]).vault_id == old(
                    self,
                ).keys@[k].vault_id && final(self).keys@[k].name@ == old(self).keys@[k].name@,
            rotated ==> exists|i: int|
                first_named(old(self).keys@, name@, i) && final(self).keys@[i].hash@ == hash@
                    && forall|k: int|
                    0 <= k < old(self).keys@.len() && k != i ==> final(self).keys@[k] == old(
                        self,
                    ).keys@[k],
    {
        match self.find_key(name) {
            Some(i) => {
                self.set_key_hash(i, hash);
                true
            },
            None => false,
        }
    }
}

} // verus!
