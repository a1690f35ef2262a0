//! The session cache: the process-wide holder of the current credential and
//! the last-loaded remote configuration.
//!
//! The cache itself is plain data; the caller at the edge guards it with its
//! lock and holds that lock only for these in-memory operations, never
//! across network or file work.

use std::time::{SystemTime, UNIX_EPOCH};
use vstd::prelude::*;

verus! {

use crate::codec::obfuscate_spec;
use crate::entities::ZentaoConfig;
use crate::store::{storage_key_spec, SessionStore};

/// The in-memory session: the bearer secret, when it stops being valid, and
/// the remote configuration.
pub struct SessionCache {
    pub token: Option<String>,
    pub token_expire_time: u64,
    pub config: Option<ZentaoConfig>,
}

impl SessionCache {
    /// An empty cache: no session, no configuration.
    pub fn new() -> (r: SessionCache)
        ensures
            r.token is None,
            r.token_expire_time == 0,
            r.config is None,
    {
        SessionCache { token: None, token_expire_time: 0, config: None }
    }

    /// A credential is held and has not expired at `now`.
    pub open spec fn valid_at(self, now: u64) -> bool {
        self.token is Some && now < self.token_expire_time
    }

    /// True iff a secret is present and `now` is before its expiry.  Pure:
    /// no I/O, no lock beyond the caller's own.
    pub fn is_valid(&self, now: u64) -> (r: bool)
        ensures
            r == self.valid_at(now),
    {
        self.token.is_some() && now < self.token_expire_time
    }

    /// Install a credential.
    pub fn set(&mut self, secret: String, expires_at: u64)
        ensures
            final(self).token == Some(secret),
            final(self).token_expire_time == expires_at,
            final(self).config == old(self).config,
    {
        self.token = Some(secret);
        self.token_expire_time = expires_at;
    }

    /// Drop the credential and the persisted record with it; the
    /// configuration stays.
    pub fn clear(&mut self, store: &mut SessionStore)
        ensures
            final(self).token is None,
            final(self).token_expire_time == 0,
            final(self).config == old(self).config,
            final(store).record is None,
    {
        self.token = None;
        self.token_expire_time = 0;
        store.clear();
    }

    /// Install a remote configuration.
    pub fn set_config(&mut self, config: ZentaoConfig)
        ensures
            final(self).config == Some(config),
            final(self).token == old(self).token,
            final(self).token_expire_time == old(self).token_expire_time,
    {
        self.config = Some(config);
    }
}

/// Relies on `std::time::SystemTime::now`: seconds since the Unix epoch
/// (zero should the clock sit before it).  Nothing can be promised of a
/// clock reading.
#[verifier::external_body]
pub fn get_current_timestamp() -> u64 {
    SystemTime::now().duration_since(UNIX_EPOCH).map(|d| d.as_secs()).unwrap_or(0)
}

/// Whether the cached credential is valid right now, against the wall
/// clock.  A `true` can only come from a held credential; a cache without
/// one, or whose expiry was reset, reads invalid whatever the clock says.
pub fn is_token_valid(cache: &SessionCache) -> (r: bool)
    ensures
        r ==> cache.token is Some,
        cache.token is None ==> !r,
        cache.token_expire_time == 0 ==> !r,
{
    let now = get_current_timestamp();
    cache.is_valid(now)
}

/// Adopt a configuration loaded from its file when one was found — the
/// cache is updated and the loaded value returned — else answer with
/// whatever the cache already holds, changing nothing.
pub fn load_config(cache: &mut SessionCache, from_file: Option<ZentaoConfig>) -> (r: Option<
    ZentaoConfig,
>)
    ensures
        match from_file {
            Some(c) => {
                &&& final(cache).config == Some(c)
                &&& r == Some(c)
                &&& final(cache).token == old(cache).token
                &&& final(cache).token_expire_time == old(cache).token_expire_time
            },
            None => *final(cache) == *old(cache) && r == old(cache).config,
        },
{
    match from_file {
        Some(c) => {
            let copy = c.duplicate();
            cache.set_config(c);
            Some(copy)
        },
        None => match &cache.config {
            Some(c) => Some(c.duplicate()),
            None => None,
        },
    }
}

/// What restoring the session at startup leaves behind, given what the
/// store held: nothing changes when no record exists, an expired record
/// goes (and the session stays absent), a live legacy record is installed
/// as it is, and a live obfuscated record is either decoded and installed
/// (the obfuscation round-trips, so a stored secret always is) or heals to
/// "no record".
pub open spec fn session_restored(
    old_token: Option<String>,
    old_expire: u64,
    old_rec: Option<crate::store::TokenRecord>,
    now: u64,
    new_token: Option<String>,
    new_expire: u64,
    new_rec: Option<crate::store::TokenRecord>,
) -> bool {
    match old_rec {
        None => new_token == old_token && new_expire == old_expire && new_rec is None,
        Some(rec) => {
            &&& (now >= rec.expire_time ==> new_token == old_token && new_expire == old_expire
                && new_rec is None)
            &&& (now < rec.expire_time && !rec.encrypted ==> new_token == Some(rec.token)
                && new_expire == rec.expire_time && new_rec == old_rec)
            &&& (now < rec.expire_time && rec.encrypted ==> {
                &&& (forall|orig: Seq<char>|
                    rec.token@ == obfuscate_spec(orig, storage_key_spec()) ==> (
                    new_token matches Some(t) && t@ == orig && new_expire == rec.expire_time))
                &&& ((new_token == old_token && new_expire == old_expire && new_rec is None) || (
                new_rec == old_rec && new_expire == rec.expire_time && (new_token matches Some(t)
                    && rec.token@ == obfuscate_spec(t@, storage_key_spec()))))
            })
        },
    }
}

/// Fill the cache at process start from whatever the store and the
/// configuration file yielded: a live stored credential is installed, an
/// expired or undecodable one heals to "no session" (the record goes), and
/// either being absent is not an error.
pub fn initialize_app_state(
    cache: &mut SessionCache,
    store: &mut SessionStore,
    config: Option<ZentaoConfig>,
    now: u64,
)
    ensures
        final(cache).config == (match config {
            Some(c) => Some(c),
            None => old(cache).config,
        }),
        session_restored(
            old(cache).token,
            old(cache).token_expire_time,
            old(store).record,
            now,
            final(cache).token,
            final(cache).token_expire_time,
            final(store).record,
        ),
{
    match store.load(now) {
        Some((secret, expire_time)) => {
            cache.set(secret, expire_time);
        },
        None => {
        },
    }
    match config {
        Some(c) => {
            cache.set_config(c);
        },
        None => {
        },
    }
}

} // verus!
