//! The session store: the persisted credential record and its lifecycle.
//!
//! The store holds a model of the one on-disk record; the caller at the edge
//! reads the file into it and writes it back out after every operation, so
//! that the file always mirrors `record`.  Corruption or staleness never
//! blocks anything: every failure path degrades to "no session", never to a
//! propagated error.

use vstd::prelude::*;

verus! {

use crate::codec::{obfuscate_spec, xor_decrypt, xor_encrypt_decrypt};
use crate::entities::{config_wf, ZentaoConfig};
use crate::jsonval::{json_tree_of_text, parse_json, JsonTree, JsonValue};
use crate::strutil::{dec_spec, json_escape, json_escape_string, u64_to_string};

/// The fixed obfuscation key the store scrambles secrets with before they
/// reach the disk.
pub open spec fn storage_key_spec() -> Seq<char> {
    "zentao_app_key_2025"@
}

fn storage_key() -> (r: String)
    ensures
        r@ == storage_key_spec(),
        r@.len() > 0,
{
    proof {
        reveal_strlit("zentao_app_key_2025");
    }
    "zentao_app_key_2025".to_owned()
}

/// The persisted credential record: the secret as obfuscated text, its
/// expiry, and whether the secret is obfuscated at all (a legacy record
/// holds it in clear).
#[derive(Debug, Clone)]
pub struct TokenRecord {
    pub token: String,
    pub expire_time: u64,
    pub encrypted: bool,
}

/// All of a credential record's fields are present and well-typed.
pub open spec fn record_parses(t: JsonTree) -> bool {
    &&& t.str_field("token"@) is Some
    &&& t.u64_field("expire_time"@) is Some
    &&& t.bool_field("encrypted"@) is Some
}

/// `rec` is exactly the credential record read off `t`.
pub open spec fn record_wf(t: JsonTree, rec: TokenRecord) -> bool {
    &&& t.str_field("token"@) == Some(rec.token@)
    &&& t.u64_field("expire_time"@) == Some(rec.expire_time)
    &&& t.bool_field("encrypted"@) == Some(rec.encrypted)
}

/// Parse a credential record; `None` exactly when a field is missing or
/// ill-typed.
pub fn record_from_json(v: &JsonValue) -> (r: Option<TokenRecord>)
    ensures
        r is Some <==> record_parses(v@),
        r matches Some(rec) ==> record_wf(v@, rec),
{
    let token = match v.get_str("token") {
        Some(x) => x,
        None => {
            return None;
        },
    };
    let expire_time = match v.get_u64("expire_time") {
        Some(x) => x,
        None => {
            return None;
        },
    };
    let encrypted = match v.get_bool("encrypted") {
        Some(x) => x,
        None => {
            return None;
        },
    };
    Some(TokenRecord { token, expire_time, encrypted })
}

/// The serialized text of a credential record.
pub open spec fn record_text_spec(rec: TokenRecord) -> Seq<char> {
    "{\"token\":\""@ + json_escape(rec.token@) + "\",\"expire_time\":"@ + dec_spec(
        rec.expire_time as nat,
    ) + ",\"encrypted\":"@ + (if rec.encrypted {
        "true"@
    } else {
        "false"@
    }) + "}"@
}

/// Serialize a credential record as JSON text.
pub fn record_to_text(rec: &TokenRecord) -> (r: String)
    ensures
        r@ == record_text_spec(*rec),
{
    let mut out = String::new();
    out.append("{\"token\":\"");
    let escaped = json_escape_string(rec.token.as_str());
    out.append(escaped.as_str());
    out.append("\",\"expire_time\":");
    let num = u64_to_string(rec.expire_time);
    out.append(num.as_str());
    out.append(",\"encrypted\":");
    if rec.encrypted {
        out.append("true");
    } else {
        out.append("false");
    }
    out.append("}");
    proof {
        assert(out@ =~= record_text_spec(*rec));
    }
    out
}

/// The model of the persisted credential: `record` is what the one on-disk
/// record holds, `None` when no record exists.
pub struct SessionStore {
    pub record: Option<TokenRecord>,
}

impl SessionStore {
    /// A store with no persisted record.
    pub fn new() -> (r: SessionStore)
        ensures
            r.record is None,
    {
        SessionStore { record: None }
    }

    /// Read the store back from persisted text: no text, unparseable text,
    /// or a text missing a field all degrade to "no record".
    pub fn from_text(content: Option<&str>) -> (r: SessionStore)
        ensures
            match content {
                None => r.record is None,
                Some(text) => match json_tree_of_text(text@) {
                    Some(t) => {
                        &&& (r.record is Some <==> record_parses(t))
                        &&& (r.record matches Some(rec) ==> record_wf(t, rec))
                    },
                    None => r.record is None,
                },
            },
    {
        let text = match content {
            None => {
                return SessionStore { record: None };
            },
            Some(text) => text,
        };
        match parse_json(text) {
            Some(v) => SessionStore { record: record_from_json(&v) },
            None => SessionStore { record: None },
        }
    }

    /// The text to persist: `None` means the record (and its file) must not
    /// exist.
    pub fn to_text(&self) -> (r: Option<String>)
        ensures
            match self.record {
                Some(rec) => (r matches Some(text) && text@ == record_text_spec(rec)),
                None => r is None,
            },
    {
        match &self.record {
            Some(rec) => Some(record_to_text(rec)),
            None => None,
        }
    }

    /// Store a credential: the secret goes in obfuscated under the fixed
    /// key, marked as such, with its expiry.
    pub fn save(&mut self, secret: &str, expires_at: u64)
        ensures
            final(self).record matches Some(rec) && rec.token@ == obfuscate_spec(
                secret@,
                storage_key_spec(),
            ) && rec.expire_time == expires_at && rec.encrypted,
    {
        let key = storage_key();
        let token = xor_encrypt_decrypt(secret, key.as_str());
        self.record = Some(TokenRecord { token, expire_time: expires_at, encrypted: true });
    }

    /// Load the credential: `None` (with the record gone) when there is no
    /// record, the record has expired, or its secret cannot be decoded;
    /// otherwise the secret and its expiry, the record kept.  A stored
    /// secret always comes back: the obfuscation round-trips.
    pub fn load(&mut self, now: u64) -> (r: Option<(String, u64)>)
        ensures
            match old(self).record {
                None => r is None && final(self).record is None,
                Some(rec) => {
                    &&& now >= rec.expire_time ==> (r is None && final(self).record is None)
                    &&& now < rec.expire_time && !rec.encrypted ==> (r matches Some(p) && p.0
                        == rec.token && p.1 == rec.expire_time && final(self).record == old(
                        self,
                    ).record)
                    &&& now < rec.expire_time && rec.encrypted ==> {
                        &&& forall|orig: Seq<char>|
                            rec.token@ == obfuscate_spec(orig, storage_key_spec()) ==> (
                            r matches Some(p) && p.0@ == orig)
                        &&& match r {
                            Some(p) => {
                                &&& p.1 == rec.expire_time
                                &&& rec.token@ == obfuscate_spec(p.0@, storage_key_spec())
                                &&& final(self).record == old(self).record
                            },
                            None => final(self).record is None,
                        }
                    }
                },
            },
    {
        let (token, expire_time, encrypted) = match &self.record {
            None => {
                return None;
            },
            Some(rec) => (rec.token.clone(), rec.expire_time, rec.encrypted),
        };
        if now >= expire_time {
            self.record = None;
            return None;
        }
        if !encrypted {
            return Some((token, expire_time));
        }
        let key = storage_key();
        match xor_decrypt(token.as_str(), key.as_str()) {
            Ok(secret) => Some((secret, expire_time)),
            Err(_) => {
                self.record = None;
                None
            },
        }
    }

    /// Forget the record; idempotent, and absence was already success.
    pub fn clear(&mut self)
        ensures
            final(self).record is None,
    {
        self.record = None;
    }
}

/// Saving and then loading, with the expiry still ahead, always gives the
/// same secret and expiry back, whatever the store held before.  Proved
/// from the contracts of `save` and `load` alone.
pub fn save_then_load(store: &mut SessionStore, secret: &str, expires_at: u64, now: u64) -> (r:
    Option<(String, u64)>)
    requires
        now < expires_at,
    ensures
        r matches Some(p) && p.0@ == secret@ && p.1 == expires_at,
        final(store).record is Some,
{
    store.save(secret, expires_at);
    store.load(now)
}

/// Saving a credential whose expiry has already passed and then loading
/// gives nothing back, and the backing record no longer exists.  Proved
/// from the contracts of `save` and `load` alone.
pub fn save_then_load_expired(
    store: &mut SessionStore,
    secret: &str,
    expires_at: u64,
    now: u64,
) -> (r: Option<(String, u64)>)
    requires
        expires_at <= now,
    ensures
        r is None,
        final(store).record is None,
{
    store.save(secret, expires_at);
    store.load(now)
}

/// The serialized text of a configuration record.
pub open spec fn config_text_spec(c: ZentaoConfig) -> Seq<char> {
    "{\"baseUrl\":\""@ + json_escape(c.base_url@) + "\",\"account\":\""@ + json_escape(c.account@)
        + "\",\"password\":\""@ + json_escape(c.password@) + "\"}"@
}

/// Serialize a configuration record as JSON text, for the sibling
/// configuration file.
pub fn config_to_text(c: &ZentaoConfig) -> (r: String)
    ensures
        r@ == config_text_spec(*c),
{
    let mut out = String::new();
    out.append("{\"baseUrl\":\"");
    let b = json_escape_string(c.base_url.as_str());
    out.append(b.as_str());
    out.append("\",\"account\":\"");
    let a = json_escape_string(c.account.as_str());
    out.append(a.as_str());
    out.append("\",\"password\":\"");
    let p = json_escape_string(c.password.as_str());
    out.append(p.as_str());
    out.append("\"}");
    proof {
        assert(out@ =~= config_text_spec(*c));
    }
    out
}

/// Read a persisted configuration back from text: unparseable or incomplete
/// text degrades to "no configuration".
pub fn config_from_text(content: Option<&str>) -> (r: Option<ZentaoConfig>)
    ensures
        match content {
            None => r is None,
            Some(text) => match json_tree_of_text(text@) {
                Some(t) => {
                    &&& (r is Some <==> crate::entities::config_parses(t))
                    &&& (r matches Some(c) ==> config_wf(t, c))
                },
                None => r is None,
            },
        },
{
    let text = match content {
        None => {
            return None;
        },
        Some(text) => text,
    };
    match parse_json(text) {
        Some(v) => ZentaoConfig::from_json(&v),
        None => None,
    }
}

} // verus!
