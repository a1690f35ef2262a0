//! The resilient API client: request building, outcome classification, and
//! response handling for each remote operation.
//!
//! The transport itself lives outside.  The caller at the edge checks the
//! session gate, dispatches the one HTTP request, and hands the outcome —
//! transport failure, or status code and body — back in; everything decided
//! about that outcome is decided here, with proofs.

use vstd::prelude::*;

verus! {

use crate::cache::SessionCache;
use crate::entities::{
    bug_wf,
    bug_parses, bug_with_root_wf, bugs_parse, bugs_with_root_wf, product_parses, product_wf,
    products_parse, products_wf, user_info_parses, user_info_wf, Bug, LoginRequest, Product,
    UserInfo,
};
use crate::jsonval::{json_tree_of_text, parse_json, trees_of, JsonTree};
use crate::normalize::{body_preview, extract_items, extract_items_spec, preview_spec};
use crate::codec::obfuscate_spec;
use crate::store::{storage_key_spec, SessionStore};
use crate::strutil::{
    ends_with_spec, find_substring, i32_dec_spec, i32_to_string, json_escape,
    json_escape_string, lower_ascii, matches_at, str_ends_with, str_lower_ascii,
    trim_end_slashes, trim_end_slashes_spec,
};
use crate::unicode::{decode_escapes_spec, decode_unicode_escapes};

/// How many characters of an offending body an error may carry.
pub const BODY_PREVIEW_MAX: usize = 100;

/// The closed classification of everything a remote operation can fail
/// with.  No kind is fatal; all propagate as typed failures.
#[derive(Debug, Clone)]
pub enum ApiError {
    /// No response was obtained; the session is untouched.  Retryable by the
    /// caller, never retried here.
    TransportError(String),
    /// The remote rejected the credential: the session was cleared, in
    /// memory and on disk, and the caller must re-authenticate.
    Unauthorized,
    /// No valid session was held, so no request was made; the caller must
    /// authenticate first.
    TokenExpired,
    /// No remote configuration is loaded, so no request root can be built.
    ConfigMissing,
    /// A response with a non-success status: the code and the decoded error
    /// body, verbatim.
    RemoteError(u16, String),
    /// The response body matched no expected shape or failed entity
    /// decoding; carries a bounded preview of the body, never all of it.
    FormatError(String),
}

/// What the one dispatch of a request yielded at the transport: no response
/// at all, or a status code with the body text.
pub enum HttpOutcome {
    Transport(String),
    Response { status: u16, body: String },
}

/// The API root for a configured base: the base itself when it already ends
/// with the fixed path suffix, else the base (sans trailing slashes) with
/// the suffix appended.
pub open spec fn api_url_spec(base: Seq<char>) -> Seq<char> {
    if ends_with_spec(base, "/api.php/v1"@) {
        base
    } else {
        trim_end_slashes_spec(base) + "/api.php/v1"@
    }
}

/// Resolve the API root from the configured base URL.
pub fn resolve_api_url(base_url: &str) -> (r: String)
    ensures
        r@ == api_url_spec(base_url@),
{
    if str_ends_with(base_url, "/api.php/v1") {
        base_url.to_owned()
    } else {
        trim_end_slashes(base_url).concat("/api.php/v1")
    }
}

/// Where a login is posted.
pub open spec fn login_url_spec(api: Seq<char>) -> Seq<char> {
    api + "/tokens"@
}

/// The authentication endpoint under an API root.
pub fn login_url(api_url: &str) -> (r: String)
    ensures
        r@ == login_url_spec(api_url@),
{
    api_url.to_owned().concat("/tokens")
}

/// Where the authenticated user's profile is fetched.
pub open spec fn user_url_spec(api: Seq<char>) -> Seq<char> {
    api + "/user"@
}

/// The profile endpoint under an API root.
pub fn user_info_url(api_url: &str) -> (r: String)
    ensures
        r@ == user_url_spec(api_url@),
{
    api_url.to_owned().concat("/user")
}

/// Where the product list is fetched.
pub open spec fn products_url_spec(api: Seq<char>) -> Seq<char> {
    api + "/products"@
}

/// The product-list endpoint under an API root.
pub fn products_url(api_url: &str) -> (r: String)
    ensures
        r@ == products_url_spec(api_url@),
{
    api_url.to_owned().concat("/products")
}

/// Where one product's detail is fetched.
pub open spec fn product_url_spec(api: Seq<char>, id: int) -> Seq<char> {
    api + "/products/"@ + i32_dec_spec(id)
}

/// The product-detail endpoint under an API root.
pub fn product_url(api_url: &str, product_id: i32) -> (r: String)
    ensures
        r@ == product_url_spec(api_url@, product_id as int),
{
    let id = i32_to_string(product_id);
    let r = api_url.to_owned().concat("/products/").concat(id.as_str());
    proof {
        assert(r@ =~= product_url_spec(api_url@, product_id as int));
    }
    r
}

/// Where one product's bug list is fetched.
pub open spec fn bugs_url_spec(api: Seq<char>, id: int) -> Seq<char> {
    api + "/products/"@ + i32_dec_spec(id) + "/bugs"@
}

/// The bug-list endpoint for one product under an API root.
pub fn bugs_url(api_url: &str, product_id: i32) -> (r: String)
    ensures
        r@ == bugs_url_spec(api_url@, product_id as int),
{
    let id = i32_to_string(product_id);
    let r = api_url.to_owned().concat("/products/").concat(id.as_str()).concat("/bugs");
    proof {
        assert(r@ =~= bugs_url_spec(api_url@, product_id as int));
    }
    r
}

/// Where one bug's detail is fetched.
pub open spec fn bug_url_spec(api: Seq<char>, id: int) -> Seq<char> {
    api + "/bugs/"@ + i32_dec_spec(id)
}

/// The bug-detail endpoint under an API root.
pub fn bug_url(api_url: &str, bug_id: i32) -> (r: String)
    ensures
        r@ == bug_url_spec(api_url@, bug_id as int),
{
    let id = i32_to_string(bug_id);
    let r = api_url.to_owned().concat("/bugs/").concat(id.as_str());
    proof {
        assert(r@ =~= bug_url_spec(api_url@, bug_id as int));
    }
    r
}

/// The serialized body of an authentication request.
pub open spec fn login_body_spec(req: LoginRequest) -> Seq<char> {
    "{\"account\":\""@ + json_escape(req.account@) + "\",\"password\":\""@ + json_escape(
        req.password@,
    ) + "\"}"@
}

/// Serialize an authentication request as JSON text.
pub fn login_request_text(req: &LoginRequest) -> (r: String)
    ensures
        r@ == login_body_spec(*req),
{
    let mut out = String::new();
    out.append("{\"account\":\"");
    let a = json_escape_string(req.account.as_str());
    out.append(a.as_str());
    out.append("\",\"password\":\"");
    let p = json_escape_string(req.password.as_str());
    out.append(p.as_str());
    out.append("\"}");
    proof {
        assert(out@ =~= login_body_spec(*req));
    }
    out
}

/// Gate an authenticated operation: hand out the credential and the API
/// root exactly when a valid session and a configuration are held, without
/// any network call.  With no valid session the caller must re-authenticate;
/// with no configuration no request root exists.
pub fn authorized_root(cache: &SessionCache, now: u64) -> (r: Result<(String, String), ApiError>)
    ensures
        r is Ok <==> (cache.valid_at(now) && cache.config is Some),
        r matches Ok(p) ==> (cache.token == Some(p.0) && (cache.config matches Some(c) && p.1@
            == api_url_spec(c.base_url@))),
        !cache.valid_at(now) ==> (r matches Err(e) && e is TokenExpired),
        cache.valid_at(now) && cache.config is None ==> (r matches Err(e) && e is ConfigMissing),
{
    if !cache.is_valid(now) {
        return Err(ApiError::TokenExpired);
    }
    let token = match &cache.token {
        Some(t) => t.clone(),
        None => {
            return Err(ApiError::TokenExpired);
        },
    };
    let base_url = match &cache.config {
        Some(c) => c.base_url.clone(),
        None => {
            return Err(ApiError::ConfigMissing);
        },
    };
    let api_url = resolve_api_url(base_url.as_str());
    Ok((token, api_url))
}

/// A bounded-preview format error for an offending body.
fn format_error(body: &str) -> (e: ApiError)
    ensures
        e matches ApiError::FormatError(m) && m@ == preview_spec(body@, BODY_PREVIEW_MAX as int),
{
    ApiError::FormatError(body_preview(body, BODY_PREVIEW_MAX))
}

/// The session (cache and store both) is exactly what it was.
pub open spec fn session_untouched(
    c0: SessionCache,
    s0: SessionStore,
    c1: SessionCache,
    s1: SessionStore,
) -> bool {
    c1 == c0 && s1 == s0
}

/// The session was invalidated: no credential in memory, no record on disk,
/// the configuration kept.
pub open spec fn session_invalidated(c0: SessionCache, c1: SessionCache, s1: SessionStore) -> bool {
    &&& c1.token is None
    &&& c1.token_expire_time == 0
    &&& c1.config == c0.config
    &&& s1.record is None
}

/// Classify the outcome of one authenticated dispatch.  A transport failure
/// and a non-success status surface as typed errors with the session
/// untouched — except a 401, which clears the session in memory and on disk
/// before surfacing `Unauthorized`.  A success hands the body on for
/// normalization.
pub fn classify_response(
    outcome: HttpOutcome,
    cache: &mut SessionCache,
    store: &mut SessionStore,
) -> (r: Result<String, ApiError>)
    ensures
        match outcome {
            HttpOutcome::Transport(msg) => {
                &&& (r matches Err(e) && (e matches ApiError::TransportError(m) && m == msg))
                &&& session_untouched(*old(cache), *old(store), *final(cache), *final(store))
            },
            HttpOutcome::Response { status, body } => {
                &&& 200 <= status < 300 ==> {
                    &&& (r matches Ok(b) && b == body)
                    &&& session_untouched(*old(cache), *old(store), *final(cache), *final(store))
                }
                &&& status == 401 ==> {
                    &&& (r matches Err(e) && e is Unauthorized)
                    &&& session_invalidated(*old(cache), *final(cache), *final(store))
                }
                &&& !(200 <= status < 300) && status != 401 ==> {
                    &&& (r matches Err(e) && (e matches ApiError::RemoteError(st, m) && st
                        == status && m@ == decode_escapes_spec(body@)))
                    &&& session_untouched(*old(cache), *old(store), *final(cache), *final(store))
                }
            },
        },
{
    match outcome {
        HttpOutcome::Transport(msg) => Err(ApiError::TransportError(msg)),
        HttpOutcome::Response { status, body } => {
            if 200 <= status && status < 300 {
                Ok(body)
            } else if status == 401 {
                cache.clear(store);
                Err(ApiError::Unauthorized)
            } else {
                let decoded = decode_unicode_escapes(body.as_str());
                Err(ApiError::RemoteError(status, decoded))
            }
        },
    }
}

/// How long an obtained credential stays valid: one day, in seconds.
pub const TOKEN_TTL_SECS: u64 = 86400;

/// Commit a successful authentication response: read the token off the
/// (escape-repaired) body, install it in the cache with a one-day expiry,
/// and store it obfuscated.  A body without a string `token` field is a
/// format error and changes nothing.
pub fn parse_login_body(
    body: &str,
    now: u64,
    cache: &mut SessionCache,
    store: &mut SessionStore,
) -> (r: Result<bool, ApiError>)
    requires
        now <= u64::MAX - TOKEN_TTL_SECS,
    ensures
        ({
            let decoded = decode_escapes_spec(body@);
            match json_tree_of_text(decoded) {
                Some(t) => match t.str_field("token"@) {
                    Some(tok) => {
                        &&& (r matches Ok(b) && b)
                        &&& (final(cache).token matches Some(s) && s@ == tok)
                        &&& final(cache).token_expire_time == now + TOKEN_TTL_SECS
                        &&& final(cache).config == old(cache).config
                        &&& (final(store).record matches Some(rec) && rec.token@ == obfuscate_spec(
                            tok,
                            storage_key_spec(),
                        ) && rec.expire_time == now + TOKEN_TTL_SECS && rec.encrypted)
                    },
                    None => {
                        &&& (r matches Err(e) && (e matches ApiError::FormatError(m) && m@
                            == preview_spec(body@, BODY_PREVIEW_MAX as int)))
                        &&& session_untouched(*old(cache), *old(store), *final(cache), *final(store))
                    },
                },
                None => {
                    &&& (r matches Err(e) && (e matches ApiError::FormatError(m) && m@
                        == preview_spec(body@, BODY_PREVIEW_MAX as int)))
                    &&& session_untouched(*old(cache), *old(store), *final(cache), *final(store))
                },
            }
        }),
{
    let decoded = decode_unicode_escapes(body);
    match parse_json(decoded.as_str()) {
        Some(v) => match v.get_str("token") {
            Some(tok) => {
                let expire = now + TOKEN_TTL_SECS;
                store.save(tok.as_str(), expire);
                cache.set(tok, expire);
                Ok(true)
            },
            None => Err(format_error(body)),
        },
        None => Err(format_error(body)),
    }
}

/// Normalize a profile response: repair escapes, parse, and read the record
/// under the `profile` field.  Anything else is a format error with a
/// bounded preview.
pub fn parse_user_info_body(body: &str) -> (r: Result<UserInfo, ApiError>)
    ensures
        ({
            let decoded = decode_escapes_spec(body@);
            match json_tree_of_text(decoded) {
                Some(t) => match t.get("profile"@) {
                    Some(p) => {
                        &&& (r is Ok <==> user_info_parses(p))
                        &&& (r matches Ok(u) ==> user_info_wf(p, u))
                        &&& (r matches Err(e) ==> (e matches ApiError::FormatError(m) && m@
                            == preview_spec(body@, BODY_PREVIEW_MAX as int)))
                    },
                    None => (r matches Err(e) && (e matches ApiError::FormatError(m) && m@
                        == preview_spec(body@, BODY_PREVIEW_MAX as int))),
                },
                None => (r matches Err(e) && (e matches ApiError::FormatError(m) && m@
                    == preview_spec(body@, BODY_PREVIEW_MAX as int))),
            }
        }),
{
    let decoded = decode_unicode_escapes(body);
    match parse_json(decoded.as_str()) {
        Some(v) => match v.get("profile") {
            Some(p) => match UserInfo::from_json(p) {
                Some(u) => Ok(u),
                None => Err(format_error(body)),
            },
            None => Err(format_error(body)),
        },
        None => Err(format_error(body)),
    }
}

/// Normalize a product-list response: repair escapes, parse, reconcile the
/// three response shapes under the `products` key, and decode every item.
/// A shape or record failure is a format error with a bounded preview.
pub fn parse_products_body(body: &str) -> (r: Result<Vec<Product>, ApiError>)
    ensures
        ({
            let decoded = decode_escapes_spec(body@);
            match json_tree_of_text(decoded) {
                Some(t) => match extract_items_spec(t, "products"@) {
                    Some(items) => {
                        &&& (r is Ok <==> products_parse(items))
                        &&& (r matches Ok(ps) ==> products_wf(items, ps@))
                        &&& (r matches Err(e) ==> (e matches ApiError::FormatError(m) && m@
                            == preview_spec(body@, BODY_PREVIEW_MAX as int)))
                    },
                    None => (r matches Err(e) && (e matches ApiError::FormatError(m) && m@
                        == preview_spec(body@, BODY_PREVIEW_MAX as int))),
                },
                None => (r matches Err(e) && (e matches ApiError::FormatError(m) && m@
                    == preview_spec(body@, BODY_PREVIEW_MAX as int))),
            }
        }),
{
    let decoded = decode_unicode_escapes(body);
    match parse_json(decoded.as_str()) {
        Some(v) => match extract_items(&v, "products") {
            Some(items) => match crate::entities::products_from_json_array(items) {
                Some(ps) => Ok(ps),
                None => Err(format_error(body)),
            },
            None => Err(format_error(body)),
        },
        None => Err(format_error(body)),
    }
}

/// Normalize a product-detail response: repair escapes, parse, and decode
/// the record.  A record failure is a format error with a bounded preview.
pub fn parse_product_detail_body(body: &str) -> (r: Result<Product, ApiError>)
    ensures
        ({
            let decoded = decode_escapes_spec(body@);
            match json_tree_of_text(decoded) {
                Some(t) => {
                    &&& (r is Ok <==> product_parses(t))
                    &&& (r matches Ok(p) ==> product_wf(t, p))
                    &&& (r matches Err(e) ==> (e matches ApiError::FormatError(m) && m@
                        == preview_spec(body@, BODY_PREVIEW_MAX as int)))
                },
                None => (r matches Err(e) && (e matches ApiError::FormatError(m) && m@
                    == preview_spec(body@, BODY_PREVIEW_MAX as int))),
            }
        }),
{
    let decoded = decode_unicode_escapes(body);
    match parse_json(decoded.as_str()) {
        Some(v) => match Product::from_json(&v) {
            Some(p) => Ok(p),
            None => Err(format_error(body)),
        },
        None => Err(format_error(body)),
    }
}

/// Normalize a bug-detail response: repair escapes, parse, decode the
/// record, and attach the API root it came from for the downstream
/// presentation transforms.
pub fn parse_bug_detail_body(body: &str, api_url: &str) -> (r: Result<Bug, ApiError>)
    ensures
        ({
            let decoded = decode_escapes_spec(body@);
            match json_tree_of_text(decoded) {
                Some(t) => {
                    &&& (r is Ok <==> bug_parses(t))
                    &&& (r matches Ok(b) ==> bug_with_root_wf(t, b, api_url@))
                    &&& (r matches Err(e) ==> (e matches ApiError::FormatError(m) && m@
                        == preview_spec(body@, BODY_PREVIEW_MAX as int)))
                },
                None => (r matches Err(e) && (e matches ApiError::FormatError(m) && m@
                    == preview_spec(body@, BODY_PREVIEW_MAX as int))),
            }
        }),
{
    let decoded = decode_unicode_escapes(body);
    match parse_json(decoded.as_str()) {
        Some(v) => match Bug::from_json(&v) {
            Some(b) => Ok(b.with_source_root(api_url.to_owned())),
            None => Err(format_error(body)),
        },
        None => Err(format_error(body)),
    }
}

/// Parse a bug-list body into records with the API root attached; `None`
/// exactly when the body is not JSON, matches no list shape under `bugs`,
/// or holds a record that fails to decode.
fn parse_bug_list(body: &str, api_url: &str) -> (r: Option<Vec<Bug>>)
    ensures
        ({
            let decoded = decode_escapes_spec(body@);
            match json_tree_of_text(decoded) {
                Some(t) => match extract_items_spec(t, "bugs"@) {
                    Some(items) => {
                        &&& (r is Some <==> bugs_parse(items))
                        &&& (r matches Some(bs) ==> bugs_with_root_wf(items, bs@, api_url@))
                    },
                    None => r is None,
                },
                None => r is None,
            }
        }),
{
    let decoded = decode_unicode_escapes(body);
    let v = match parse_json(decoded.as_str()) {
        Some(v) => v,
        None => {
            return None;
        },
    };
    let items = match extract_items(&v, "bugs") {
        Some(items) => items,
        None => {
            return None;
        },
    };
    proof {
        crate::jsonval::lemma_trees_of(items@);
    }
    let ghost trees = trees_of(items@);
    let ghost tree = json_tree_of_text(decode_escapes_spec(body@))->Some_0;
    let mut out: Vec<Bug> = Vec::new();
    let mut i: usize = 0;
    while i < items.len()
        invariant
            i <= items@.len(),
            trees == trees_of(items@),
            trees.len() == items@.len(),
            forall|j: int| 0 <= j < items@.len() ==> trees[j] == (#[trigger] items@[j])@,
            json_tree_of_text(decode_escapes_spec(body@)) == Some(tree),
            extract_items_spec(tree, "bugs"@) == Some(trees),
            out@.len() == i,
            forall|j: int|
                0 <= j < i ==> bug_with_root_wf(trees[j], #[trigger] out@[j], api_url@),
        decreases items@.len() - i,
    {
        match Bug::from_json(&items[i]) {
            Some(b) => {
                let ghost orig = b;
                let b = b.with_source_root(api_url.to_owned());
                proof {
                    assert(Bug { base_url: None, ..b } =~= orig);
                }
                out.push(b);
            },
            None => {
                proof {
                    assert(!bug_parses(trees[i as int]));
                    assert(!bugs_parse(trees)) by {
                        if bugs_parse(trees) {
                            assert(bug_parses(trees[i as int]));
                        }
                    }
                }
                return None;
            },
        }
        i = i + 1;
    }
    proof {
        assert forall|j: int| 0 <= j < trees.len() implies bug_parses(#[trigger] trees[j]) by {
            assert(bug_with_root_wf(trees[j], out@[j], api_url@));
            assert(bug_wf(trees[j], Bug { base_url: None, ..out@[j] }));
        }
    }
    Some(out)
}

/// One identifier's step of a fan-out bug fetch.  Every failure of this one
/// identifier — transport, a non-success status, a malformed body — is
/// skipped, leaving the batch and the session untouched; a success appends
/// its records (each carrying the API root) to the batch.  The exception is
/// a 401: it clears the session, in memory and on disk, and aborts the whole
/// batch with `Unauthorized`, since the credential is known invalid for
/// every remaining identifier.
pub fn process_bug_batch_item(
    outcome: HttpOutcome,
    api_url: &str,
    acc: &mut Vec<Bug>,
    cache: &mut SessionCache,
    store: &mut SessionStore,
) -> (r: Result<(), ApiError>)
    ensures
        match outcome {
            HttpOutcome::Transport(_) => r is Ok && final(acc)@ == old(acc)@ && session_untouched(
                *old(cache),
                *old(store),
                *final(cache),
                *final(store),
            ),
            HttpOutcome::Response { status, body } => {
                &&& 200 <= status < 300 ==> {
                    &&& session_untouched(*old(cache), *old(store), *final(cache), *final(store))
                    &&& r is Ok
                    &&& ({
                        let decoded = decode_escapes_spec(body@);
                        match json_tree_of_text(decoded) {
                            Some(t) => match extract_items_spec(t, "bugs"@) {
                                Some(items) => if bugs_parse(items) {
                                    &&& final(acc)@.len() == old(acc)@.len() + items.len()
                                    &&& final(acc)@.subrange(0, old(acc)@.len() as int) == old(
                                        acc,
                                    )@
                                    &&& forall|i: int|
                                        0 <= i < items.len() ==> bug_with_root_wf(
                                            items[i],
                                            #[trigger] final(acc)@[old(acc)@.len() + i],
                                            api_url@,
                                        )
                                } else {
                                    final(acc)@ == old(acc)@
                                },
                                None => final(acc)@ == old(acc)@,
                            },
                            None => final(acc)@ == old(acc)@,
                        }
                    })
                }
                &&& status == 401 ==> {
                    &&& (r matches Err(e) && e is Unauthorized)
                    &&& final(acc)@ == old(acc)@
                    &&& session_invalidated(*old(cache), *final(cache), *final(store))
                }
                &&& !(200 <= status < 300) && status != 401 ==> {
                    &&& r is Ok
                    &&& final(acc)@ == old(acc)@
                    &&& session_untouched(*old(cache), *old(store), *final(cache), *final(store))
                }
            },
        },
{
    match classify_response(outcome, cache, store) {
        Ok(body) => {
            match parse_bug_list(body.as_str(), api_url) {
                Some(mut bs) => {
                    let ghost old_acc = acc@;
                    let ghost new_bugs = bs@;
                    acc.append(&mut bs);
                    proof {
                        assert(acc@.subrange(0, old_acc.len() as int) =~= old_acc);
                        assert forall|i: int| 0 <= i < new_bugs.len() implies acc@[old_acc.len()
                            + i] == new_bugs[i] by {
                        }
                    }
                    Ok(())
                },
                None => Ok(()),
            }
        },
        Err(e) => match e {
            ApiError::Unauthorized => Err(ApiError::Unauthorized),
            _ => Ok(()),
        },
    }
}

/// The MIME type for an image path, by its extension, ASCII
/// case-insensitively; PNG when the extension is unknown.
pub open spec fn mime_spec(path: Seq<char>) -> Seq<char> {
    let p = lower_ascii(path);
    if ends_with_spec(p, ".png"@) {
        "image/png"@
    } else if ends_with_spec(p, ".jpg"@) || ends_with_spec(p, ".jpeg"@) {
        "image/jpeg"@
    } else if ends_with_spec(p, ".gif"@) {
        "image/gif"@
    } else if ends_with_spec(p, ".webp"@) {
        "image/webp"@
    } else {
        "image/png"@
    }
}

fn mime_for_path(image_path: &str) -> (r: String)
    ensures
        r@ == mime_spec(image_path@),
{
    let lower = str_lower_ascii(image_path);
    let p = lower.as_str();
    if str_ends_with(p, ".png") {
        "image/png".to_owned()
    } else if str_ends_with(p, ".jpg") || str_ends_with(p, ".jpeg") {
        "image/jpeg".to_owned()
    } else if str_ends_with(p, ".gif") {
        "image/gif".to_owned()
    } else if str_ends_with(p, ".webp") {
        "image/webp".to_owned()
    } else {
        "image/png".to_owned()
    }
}

/// The embeddable data URL for fetched image bytes: the MIME type read off
/// the path's extension and the bytes in base64.
pub open spec fn data_url_spec(bytes: Seq<u8>, path: Seq<char>) -> Seq<char> {
    "data:"@ + mime_spec(path) + ";base64,"@ + crate::codec::b64_of(bytes)
}

/// Encode fetched image bytes as a data URL for the caller to embed.
pub fn image_data_url(bytes: &Vec<u8>, image_path: &str) -> (r: String)
    ensures
        r@ == data_url_spec(bytes@, image_path@),
{
    let mime = mime_for_path(image_path);
    let b64 = crate::codec::b64_encode(bytes);
    let r = "data:".to_owned().concat(mime.as_str()).concat(";base64,").concat(b64.as_str());
    proof {
        assert(r@ =~= data_url_spec(bytes@, image_path@));
    }
    r
}

/// The service root an image path hangs off: everything before the first
/// occurrence of the API script's path, or the API root itself (sans
/// trailing slashes) when that path does not occur.
pub fn image_root_url(api_url: &str) -> (r: String)
    ensures
        (forall|j: int| !matches_at(api_url@, "/api.php"@, j)) ==> r@ == trim_end_slashes_spec(
            api_url@,
        ),
        (exists|j: int| matches_at(api_url@, "/api.php"@, j)) ==> (exists|i: int|
            {
                &&& r@ == api_url@.subrange(0, i)
                &&& #[trigger] matches_at(api_url@, "/api.php"@, i)
                &&& forall|j: int| 0 <= j < i ==> !matches_at(api_url@, "/api.php"@, j)
            }),
{
    match find_substring(api_url, "/api.php") {
        Some(i) => {
            proof {
                reveal_strlit("/api.php");
            }
            api_url.substring_char(0, i).to_owned()
        },
        None => trim_end_slashes(api_url),
    }
}

/// The full URL an image is fetched from: the service root, a slash, and
/// the image path.
pub fn image_url(root_url: &str, image_path: &str) -> (r: String)
    ensures
        r@ == root_url@ + "/"@ + image_path@,
{
    let r = root_url.to_owned().concat("/").concat(image_path);
    proof {
        assert(r@ =~= root_url@ + "/"@ + image_path@);
    }
    r
}

} // verus!
