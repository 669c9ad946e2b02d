//! Accounts, characters and sessions. Passwords are stored as Argon2 PHC
//! strings, salted from a SHA-256 digest of who registered and when.
use vstd::prelude::*;
use argon2::password_hash::{PasswordHash, SaltString};
use argon2::{Argon2, PasswordHasher, PasswordVerifier};
use base64::Engine;
use sha2::Digest;
use crate::entity::{Entity, EntityType, Identity};
use crate::seed::{is_fresh_player, fresh_player, SeedError};
use crate::tables::{Account, ClientType, PlayerSession};
use crate::world::{session_index, World};

verus! {

/// Shortest password accepted, in bytes.
pub const MIN_PASSWORD_BYTES: usize = 8;

#[verifier::external_type_specification]
#[verifier::external_body]
pub struct ExPasswordHashError(argon2::password_hash::Error);

/// The bytes that a registration's salt is derived from: the sender and
/// the moment, as text.
pub uninterp spec fn salt_source(sender: u128, now: i64) -> Seq<u8>;

/// The SHA-256 digest of some bytes.
pub uninterp spec fn sha256_of(data: Seq<u8>) -> Seq<u8>;

/// Standard base64 without padding.
pub uninterp spec fn b64_no_pad_of(data: Seq<u8>) -> Seq<char>;

/// The Argon2 (default parameters) PHC string of a password with a salt.
pub uninterp spec fn phc_hash_of(password: Seq<char>, salt_b64: Seq<char>) -> Seq<char>;

/// Whether a password verifies against a PHC string.
pub uninterp spec fn password_matches(password: Seq<char>, phc: Seq<char>) -> bool;

/// Relies on std's `format!`: the sender's number and the moment in
/// decimal, as bytes; the text depends on the two values alone.
#[verifier::external_body]
fn salt_source_bytes(sender: u128, now: i64) -> (r: Vec<u8>)
    ensures
        r@ == salt_source(sender, now),
{
    format!("{}:{}", sender, now).into_bytes()
}

/// Relies on sha2's `Sha256::digest`: 32 bytes, a function of the input.
#[verifier::external_body]
fn sha256_digest(data: &[u8]) -> (r: Vec<u8>)
    ensures
        r@ == sha256_of(data@),
        r@.len() == 32,
{
    sha2::Sha256::digest(data).to_vec()
}

/// Relies on base64's `STANDARD_NO_PAD` engine `encode`.
#[verifier::external_body]
fn encode_b64_no_pad(data: &[u8]) -> (r: String)
    ensures
        r@ == b64_no_pad_of(data@),
{
    base64::engine::general_purpose::STANDARD_NO_PAD.encode(data)
}

/// Relies on argon2's `PasswordHasher::hash_password` with
/// `Argon2::default()` (Argon2id, default parameters): the PHC string
/// depends on the password and the salt alone. The B64 salt is first read
/// into the `SaltString` that the call takes.
#[verifier::external_body]
fn argon2_hash(password: &str, salt_b64: &str) -> (r: Result<String, argon2::password_hash::Error>)
    ensures
        r is Ok ==> r->Ok_0@ == phc_hash_of(password@, salt_b64@),
{
    let salt = SaltString::from_b64(salt_b64)?;
    Argon2::default().hash_password(password.as_bytes(), &salt).map(|h| h.to_string())
}

/// Relies on argon2's `PasswordVerifier::verify_password` with
/// `Argon2::default()`, after parsing the PHC string with
/// `PasswordHash::new`; an unreadable string verifies nothing.
#[verifier::external_body]
fn argon2_verify(password: &str, phc: &str) -> (r: bool)
    ensures
        r == password_matches(password@, phc@),
{
    match PasswordHash::new(phc) {
        Ok(h) => Argon2::default().verify_password(password.as_bytes(), &h).is_ok(),
        Err(_) => false,
    }
}

/// The stored hash for a password registered by `sender` at `now`.
pub open spec fn registration_hash(sender: Identity, now: i64, password: Seq<char>) -> Seq<char> {
    phc_hash_of(password, b64_no_pad_of(sha256_of(salt_source(sender.0, now)).subrange(0, 16)))
}

#[derive(Clone, Copy, Debug, PartialEq, Eq, Structural)]
pub enum AuthError {
    PasswordTooShort,
    UsernameTaken,
    /// The identity already has an account.
    AccountExists,
    HashingFailed,
    /// Unknown username or wrong password.
    InvalidCredentials,
    Banned,
    /// The identity already has a session.
    SessionExists,
}

pub open spec fn account_index_from(s: Seq<Account>, who: Identity, i: int) -> Option<int>
    decreases s.len() - i,
{
    if i < 0 || i >= s.len() {
        None
    } else if s[i].identity == who {
        Some(i)
    } else {
        account_index_from(s, who, i + 1)
    }
}

pub open spec fn account_named_from(s: Seq<Account>, name: Seq<char>, i: int) -> Option<int>
    decreases s.len() - i,
{
    if i < 0 || i >= s.len() {
        None
    } else if s[i].username@ == name {
        Some(i)
    } else {
        account_named_from(s, name, i + 1)
    }
}

proof fn lemma_account_index_in_range(s: Seq<Account>, who: Identity, i: int)
    ensures
        account_index_from(s, who, i) matches Some(k) ==> 0 <= i <= k < s.len() && s[k].identity == who,
    decreases s.len() - i,
{
    if 0 <= i < s.len() && s[i].identity != who {
        lemma_account_index_in_range(s, who, i + 1);
    }
}

proof fn lemma_account_named_in_range(s: Seq<Account>, name: Seq<char>, i: int)
    ensures
        account_named_from(s, name, i) matches Some(k) ==> 0 <= i <= k < s.len() && s[k].username@ == name,
    decreases s.len() - i,
{
    if 0 <= i < s.len() && s[i].username@ != name {
        lemma_account_named_in_range(s, name, i + 1);
    }
}

/// Some player character is called `name`.
pub open spec fn player_named(ents: Seq<Entity>, name: Seq<char>) -> bool {
    exists|i: int|
        0 <= i < ents.len() && (#[trigger] ents[i]).entity_type == EntityType::Player && ents[i].name@ == name
}

/// A new account: no e-mail, no character yet, no privileges.
pub open spec fn is_new_account(a: Account, sender: Identity, username: Seq<char>, hash: Seq<char>, now: i64) -> bool {
    &&& a.identity == sender && a.username@ == username && a.password_hash@ == hash
    &&& a.email is None && a.created_at == now && a.last_login == now && a.total_play_time == 0
    &&& !a.is_banned && !a.is_admin && !a.is_moderator
    &&& a.primary_character_id is None
}

impl World {
    fn account_of(&self, who: Identity) -> (r: Option<usize>)
        ensures
            match r {
                Some(k) => account_index_from(self.accounts@, who, 0) == Some(k as int) && k < self.accounts@.len(),
                None => account_index_from(self.accounts@, who, 0) is None,
            },
    {
        proof {
            lemma_account_index_in_range(self.accounts@, who, 0);
        }
        let mut i: usize = 0;
        while i < self.accounts.len()
            invariant
                0 <= i <= self.accounts@.len(),
                account_index_from(self.accounts@, who, 0) == account_index_from(self.accounts@, who, i as int),
            decreases self.accounts.len() - i,
        {
            if self.accounts[i].identity == who {
                return Some(i);
            }
            i = i + 1;
        }
        None
    }

    fn account_named(&self, name: &str) -> (r: Option<usize>)
        ensures
            match r {
                Some(k) => account_named_from(self.accounts@, name@, 0) == Some(k as int) && k < self.accounts@.len(),
                None => account_named_from(self.accounts@, name@, 0) is None,
            },
    {
        proof {
            lemma_account_named_in_range(self.accounts@, name@, 0);
        }
        let mut i: usize = 0;
        while i < self.accounts.len()
            invariant
                0 <= i <= self.accounts@.len(),
                account_named_from(self.accounts@, name@, 0) == account_named_from(self.accounts@, name@, i as int),
            decreases self.accounts.len() - i,
        {
            if crate::rooms::str_eq(self.accounts[i].username.as_str(), name) {
                return Some(i);
            }
            i = i + 1;
        }
        None
    }

    /// Stores a new account for `sender` with an already computed password
    /// hash. Refused when the username is taken or the identity already has
    /// an account.
    pub fn register_account(&mut self, sender: Identity, username: String, password_hash: String, now: i64) -> (r: Result<(), AuthError>)
        requires
            old(self).wf(),
        ensures
            final(self).wf(),
            r == (if account_named_from(old(self).accounts@, username@, 0) is Some {
                Err::<(), AuthError>(AuthError::UsernameTaken)
            } else if account_index_from(old(self).accounts@, sender, 0) is Some {
                Err::<(), AuthError>(AuthError::AccountExists)
            } else {
                Ok::<(), AuthError>(())
            }),
            r is Err ==> *final(self) == *old(self),
            r is Ok ==> final(self).accounts@.len() == old(self).accounts@.len() + 1
                && final(self).accounts@.drop_last() == old(self).accounts@
                && is_new_account(final(self).accounts@.last(), sender, username@, password_hash@, now)
                && *final(self) == (World { accounts: final(self).accounts, ..*old(self) }),
    {
        if self.account_named(username.as_str()).is_some() {
            return Err(AuthError::UsernameTaken);
        }
        if self.account_of(sender).is_some() {
            return Err(AuthError::AccountExists);
        }
        let account = Account {
            identity: sender,
            username,
            password_hash,
            email: None,
            created_at: now,
            last_login: now,
            total_play_time: 0,
            is_banned: false,
            is_admin: false,
            is_moderator: false,
            primary_character_id: None,
        };
        self.accounts.push(account);
        assert(self.accounts@.drop_last() =~= old(self).accounts@);
        Ok(())
    }

    /// Registers `username` for `sender`. The password must be at least
    /// eight bytes and the username free; the password is stored as an
    /// Argon2 hash salted from the sender and the moment.
    pub fn create_account(&mut self, sender: Identity, username: String, password: &str, now: i64) -> (r: Result<(), AuthError>)
        requires
            old(self).wf(),
        ensures
            final(self).wf(),
            r is Err ==> *final(self) == *old(self),
            password.len() < MIN_PASSWORD_BYTES ==> r == Err::<(), AuthError>(AuthError::PasswordTooShort),
            password.len() >= MIN_PASSWORD_BYTES && account_named_from(old(self).accounts@, username@, 0) is Some
                ==> r == Err::<(), AuthError>(AuthError::UsernameTaken),
            password.len() >= MIN_PASSWORD_BYTES && account_named_from(old(self).accounts@, username@, 0) is None
                && account_index_from(old(self).accounts@, sender, 0) is Some ==> r == Err::<(), AuthError>(
                AuthError::AccountExists,
            ) || r == Err::<(), AuthError>(AuthError::HashingFailed),
            password.len() >= MIN_PASSWORD_BYTES && account_named_from(old(self).accounts@, username@, 0) is None
                && account_index_from(old(self).accounts@, sender, 0) is None ==> r is Ok || r == Err::<(), AuthError>(
                AuthError::HashingFailed,
            ),
            r is Ok ==> final(self).accounts@.drop_last() == old(self).accounts@
                && is_new_account(final(self).accounts@.last(), sender, username@, registration_hash(sender, now, password@), now),
    {
        if password.len() < MIN_PASSWORD_BYTES {
            return Err(AuthError::PasswordTooShort);
        }
        if self.account_named(username.as_str()).is_some() {
            return Err(AuthError::UsernameTaken);
        }
        let source = salt_source_bytes(sender.0, now);
        let digest = sha256_digest(source.as_slice());
        let mut salt: Vec<u8> = Vec::new();
        let mut i: usize = 0;
        while i < 16
            invariant
                digest@.len() == 32,
                0 <= i <= 16,
                salt@ == digest@.subrange(0, i as int),
            decreases 16 - i,
        {
            salt.push(digest[i]);
            assert(salt@ =~= digest@.subrange(0, i as int + 1));
            i = i + 1;
        }
        let salt_b64 = encode_b64_no_pad(salt.as_slice());
        let hash = match argon2_hash(password, salt_b64.as_str()) {
            Ok(h) => h,
            Err(_) => {
                return Err(AuthError::HashingFailed);
            },
        };
        self.register_account(sender, username, hash, now)
    }

    /// Opens a session for `sender` on the account at `account_index`, given
    /// whether the password verified. The session controls the account's
    /// character, or none (0) when it has none.
    pub fn open_session(&mut self, sender: Identity, account_index: usize, password_ok: bool, now: i64) -> (r: Result<(), AuthError>)
        requires
            old(self).wf(),
            account_index < old(self).accounts@.len(),
        ensures
            final(self).wf(),
            r == (if old(self).accounts@[account_index as int].is_banned {
                Err::<(), AuthError>(AuthError::Banned)
            } else if !password_ok {
                Err::<(), AuthError>(AuthError::InvalidCredentials)
            } else if session_index(old(self).sessions@, sender) is Some {
                Err::<(), AuthError>(AuthError::SessionExists)
            } else {
                Ok::<(), AuthError>(())
            }),
            r is Err ==> *final(self) == *old(self),
            r is Ok ==> {
                let s = final(self).sessions@.last();
                &&& final(self).sessions@.drop_last() == old(self).sessions@
                &&& s.identity == sender
                &&& s.character_id == match old(self).accounts@[account_index as int].primary_character_id {
                    Some(c) => c,
                    None => 0,
                }
                &&& s.connected_at == now && s.last_heartbeat == now
                &&& s.client_type == ClientType::Unknown && s.client_version@ == "0.1.0"@
                &&& s.is_active
                &&& *final(self) == (World { sessions: final(self).sessions, ..*old(self) })
            },
    {
        if self.accounts[account_index].is_banned {
            return Err(AuthError::Banned);
        }
        if !password_ok {
            return Err(AuthError::InvalidCredentials);
        }
        if self.find_session(sender).is_some() {
            return Err(AuthError::SessionExists);
        }
        let character_id = match self.accounts[account_index].primary_character_id {
            Some(c) => c,
            None => 0,
        };
        let session = PlayerSession {
            identity: sender,
            character_id,
            connected_at: now,
            last_heartbeat: now,
            client_type: ClientType::Unknown,
            client_version: "0.1.0".to_string(),
            is_active: true,
        };
        self.sessions.push(session);
        assert(self.sessions@.drop_last() =~= old(self).sessions@);
        Ok(())
    }

    /// Logs `sender` in with a username and password: the first account of
    /// that name must exist, not be banned, and verify the password.
    pub fn login(&mut self, sender: Identity, username: &str, password: &str, now: i64) -> (r: Result<(), AuthError>)
        requires
            old(self).wf(),
        ensures
            final(self).wf(),
            r is Err ==> *final(self) == *old(self),
            match account_named_from(old(self).accounts@, username@, 0) {
                None => r == Err::<(), AuthError>(AuthError::InvalidCredentials),
                Some(k) => {
                    let a = old(self).accounts@[k];
                    &&& a.is_banned ==> r == Err::<(), AuthError>(AuthError::Banned)
                    &&& !a.is_banned && !password_matches(password@, a.password_hash@) ==> r == Err::<(), AuthError>(
                        AuthError::InvalidCredentials,
                    )
                    &&& (r is Ok <==> !a.is_banned && password_matches(password@, a.password_hash@)
                        && session_index(old(self).sessions@, sender) is None)
                },
            },
    {
        let k = match self.account_named(username) {
            Some(k) => k,
            None => {
                return Err(AuthError::InvalidCredentials);
            },
        };
        if self.accounts[k].is_banned {
            return Err(AuthError::Banned);
        }
        let ok = argon2_verify(password, self.accounts[k].password_hash.as_str());
        self.open_session(sender, k, ok, now)
    }

    /// Creates the sender's character, named `name`, in room 1 and makes it
    /// the account's primary character. The sender needs an account and the
    /// name must not belong to another player character.
    pub fn create_character(&mut self, sender: Identity, name: String, now: i64) -> (r: Result<u64, SeedError>)
        requires
            old(self).wf(),
        ensures
            final(self).wf(),
            r is Err ==> *final(self) == *old(self),
            account_index_from(old(self).accounts@, sender, 0) is None ==> r == Err::<u64, SeedError>(SeedError::NoAccount),
            r is Ok <==> account_index_from(old(self).accounts@, sender, 0) is Some
                && !player_named(old(self).entities@, name@) && old(self).next_entity_id < u64::MAX,
            r is Ok ==> {
                let k = account_index_from(old(self).accounts@, sender, 0)->0;
                &&& r->Ok_0 == old(self).next_entity_id
                &&& final(self).next_entity_id == old(self).next_entity_id + 1
                &&& final(self).entities@.drop_last() == old(self).entities@
                &&& is_fresh_player(final(self).entities@.last(), r->Ok_0, Some(sender), name@, now)
                &&& final(self).accounts@ == old(self).accounts@.update(
                    k,
                    Account { primary_character_id: Some(r->Ok_0), ..old(self).accounts@[k] },
                )
            },
    {
        let k = match self.account_of(sender) {
            Some(k) => k,
            None => {
                return Err(SeedError::NoAccount);
            },
        };
        let mut i: usize = 0;
        while i < self.entities.len()
            invariant
                *self == *old(self),
                self.wf(),
                k < self.accounts@.len(),
                account_index_from(self.accounts@, sender, 0) == Some(k as int),
                0 <= i <= self.entities@.len(),
                forall|j: int|
                    0 <= j < i ==> !((#[trigger] self.entities@[j]).entity_type == EntityType::Player
                        && self.entities@[j].name@ == name@),
            decreases self.entities.len() - i,
        {
            if self.entities[i].entity_type == EntityType::Player && crate::rooms::str_eq(
                self.entities[i].name.as_str(),
                name.as_str(),
            ) {
                return Err(SeedError::NameTaken);
            }
            i = i + 1;
        }
        if self.next_entity_id == u64::MAX {
            return Err(SeedError::IdsExhausted);
        }
        let id = self.next_entity_id;
        let e = fresh_player(id, Some(sender), name, "A brave adventurer.".to_string(), 70_000, now);
        self.entities.push(e);
        self.next_entity_id = id + 1;
        assert(self.entities@.drop_last() =~= old(self).entities@);
        self.accounts[k].primary_character_id = Some(id);
        Ok(id)
    }
}

} // verus!
