//! Bot credentials, the credential ledger and its storage abstraction.

use std::sync::Arc;
use std::time::SystemTime;

use vstd::prelude::*;

use crate::auth_error::AuthError;

verus! {

#[verifier::external_type_specification]
#[verifier::external_body]
pub struct ExSystemTime(SystemTime);

/// The current wall-clock time (`SystemTime::now`).
#[verifier::external_body]
fn system_now() -> SystemTime {
    SystemTime::now()
}

/// Whole seconds from the Unix epoch to `t` (`SystemTime::duration_since`);
/// `None` when `t` lies before the epoch.
#[verifier::external_body]
fn unix_secs(t: &SystemTime) -> Option<u64> {
    t.duration_since(SystemTime::UNIX_EPOCH).ok().map(|d| d.as_secs())
}

/// Whole seconds since the Unix epoch of a clock reading; 0 for a reading
/// before the epoch (`None`).
pub open spec fn seconds_or_zero(since_epoch: Option<u64>) -> u64 {
    match since_epoch {
        Some(s) => s,
        None => 0,
    }
}

/// Bot credential (`botid + secret`).
#[derive(Debug)]
pub struct BotCredential {
    pub id: String,
    pub secret: String,
    pub create_time: u64,
}

impl Clone for BotCredential {
    fn clone(&self) -> (r: BotCredential)
        ensures
            r == *self,
    {
        BotCredential { id: self.id.clone(), secret: self.secret.clone(), create_time: self.create_time }
    }
}

impl BotCredential {
    /// A credential created at `create_time` (seconds since the Unix epoch).
    pub fn with_create_time(id: String, secret: String, create_time: u64) -> (b: BotCredential)
        ensures
            b.id == id,
            b.secret == secret,
            b.create_time == create_time,
    {
        BotCredential { id, secret, create_time }
    }

    /// A credential created at a clock reading given as whole seconds since
    /// the Unix epoch (`None`: the clock reads before the epoch, kept as 0).
    pub fn created_at(id: String, secret: String, since_epoch: Option<u64>) -> (b: BotCredential)
        ensures
            b.id == id,
            b.secret == secret,
            b.create_time == seconds_or_zero(since_epoch),
    {
        let create_time = match since_epoch {
            Some(s) => s,
            None => 0,
        };
        BotCredential::with_create_time(id, secret, create_time)
    }

    /// A credential created now (see [`BotCredential::created_at`]).
    pub fn new(id: String, secret: String) -> (b: BotCredential)
        ensures
            b.id == id,
            b.secret == secret,
    {
        let now = system_now();
        BotCredential::created_at(id, secret, unix_secs(&now))
    }
}

/// The credential ledger: bot credential and bearer token, updated together.
#[derive(Debug)]
pub struct Credentials {
    pub bot: Option<BotCredential>,
    pub token: Option<String>,
}

impl Clone for Credentials {
    fn clone(&self) -> (r: Credentials)
        ensures
            r == *self,
    {
        let bot = match &self.bot {
            Some(b) => Some(b.clone()),
            None => None,
        };
        let token = match &self.token {
            Some(t) => Some(t.clone()),
            None => None,
        };
        Credentials { bot, token }
    }
}

impl Default for Credentials {
    fn default() -> (r: Credentials)
        ensures
            r.bot is None,
            r.token is None,
    {
        Credentials { bot: None, token: None }
    }
}

impl Credentials {
    /// Neither a bot credential nor a token.
    pub open spec fn spec_is_empty(self) -> bool {
        self.bot is None && self.token is None
    }

    pub fn is_empty(&self) -> (r: bool)
        ensures
            r == self.spec_is_empty(),
    {
        self.bot.is_none() && self.token.is_none()
    }
}

/// What a store holds after `c` is written: nothing when `c` is empty.
pub open spec fn stored_form(c: Credentials) -> Option<Credentials> {
    if c.spec_is_empty() {
        None
    } else {
        Some(c)
    }
}

/// Credential storage. `save` overwrites the whole ledger; `load` answers
/// `None` when there is no credential (a missing or undecryptable ledger is
/// no error); `clear` on an empty store does nothing. Each call may fail
/// for reasons of the medium; what a successful call does is stated over
/// [`CredentialStore::ledger`].
pub trait CredentialStore {
    /// The ledger the store holds (`None`: no credential).
    spec fn ledger(&self) -> Option<Credentials>;

    /// Reads the ledger.
    fn load(&self) -> (r: Result<Option<Credentials>, AuthError>)
        ensures
            r matches Ok(c) ==> c == self.ledger(),
    ;

    /// Replaces the whole ledger; an empty one leaves the store as cleared.
    fn save(&mut self, credentials: &Credentials) -> (r: Result<(), AuthError>)
        ensures
            r is Ok ==> final(self).ledger() == stored_form(*credentials),
    ;

    /// Removes the ledger.
    fn clear(&mut self) -> (r: Result<(), AuthError>)
        ensures
            r is Ok ==> final(self).ledger() is None,
    ;
}

/// In-memory credential store.
#[derive(Debug)]
pub struct MemoryCredentialStore {
    inner: Option<Credentials>,
}

impl Default for MemoryCredentialStore {
    fn default() -> (r: MemoryCredentialStore)
        ensures
            r.contents() is None,
    {
        MemoryCredentialStore { inner: None }
    }
}

impl MemoryCredentialStore {
    /// What the store holds.
    pub closed spec fn contents(self) -> Option<Credentials> {
        self.inner
    }

    /// A store preset with `initial` (empty when `initial` is).
    pub fn new(initial: Credentials) -> (s: MemoryCredentialStore)
        ensures
            s.contents() == stored_form(initial),
    {
        if initial.is_empty() {
            MemoryCredentialStore { inner: None }
        } else {
            MemoryCredentialStore { inner: Some(initial) }
        }
    }

    /// The store behind a shared pointer.
    pub fn shared(self) -> (r: Arc<MemoryCredentialStore>)
        ensures
            *r == self,
    {
        Arc::new(self)
    }
}

impl CredentialStore for MemoryCredentialStore {
    open spec fn ledger(&self) -> Option<Credentials> {
        self.contents()
    }

    fn load(&self) -> (r: Result<Option<Credentials>, AuthError>)
        ensures
            r matches Ok(c) && c == self.contents(),
    {
        match &self.inner {
            Some(c) => Ok(Some(c.clone())),
            None => Ok(None),
        }
    }

    fn save(&mut self, credentials: &Credentials) -> (r: Result<(), AuthError>)
        ensures
            r is Ok,
            final(self).contents() == stored_form(*credentials),
    {
        if credentials.is_empty() {
            self.inner = None;
        } else {
            self.inner = Some(credentials.clone());
        }
        Ok(())
    }

    fn clear(&mut self) -> (r: Result<(), AuthError>)
        ensures
            r is Ok,
            final(self).contents() is None,
    {
        self.inner = None;
        Ok(())
    }
}

/// Law: a store gives back what was last written to it, unless that was
/// empty, which leaves it as cleared; writing the default ledger clears it.
pub proof fn law_store_read_after_write(c: Credentials)
    ensures
        stored_form(c) is Some <==> !c.spec_is_empty(),
        stored_form(c) matches Some(s) ==> s == c,
        stored_form(Credentials { bot: None, token: None }) is None,
{
}

} // verus!
