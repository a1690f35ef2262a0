//! The normalized entities of the remote service, and their parsers.
//!
//! Every entity is produced only here, from a parsed JSON tree.  A field of
//! the remote schema keeps its wire name (including the camel-cased ones);
//! required fields fail the whole record when missing or ill-typed, optional
//! fields read as absent on a missing key or an explicit null, and defaulted
//! text fields read as empty when missing.

use vstd::prelude::*;

verus! {

use crate::jsonval::{JsonTree, JsonValue};

/// A user reference as it appears inside other records.
#[derive(Debug, Clone)]
pub struct User {
    pub id: i32,
    pub account: String,
    pub avatar: String,
    pub realname: String,
}

/// All of a user record's required fields are present and well-typed.
pub open spec fn user_parses(t: JsonTree) -> bool {
    &&& t.i32_field("id"@) is Some
    &&& t.str_field("account"@) is Some
    &&& t.str_field("avatar"@) is Some
    &&& t.str_field("realname"@) is Some
}

/// `u` is exactly the user record read off `t`.
pub open spec fn user_wf(t: JsonTree, u: User) -> bool {
    &&& t.i32_field("id"@) == Some(u.id)
    &&& t.str_field("account"@) == Some(u.account@)
    &&& t.str_field("avatar"@) == Some(u.avatar@)
    &&& t.str_field("realname"@) == Some(u.realname@)
}

impl User {
    /// Parse a user record; `None` exactly when a required field is missing
    /// or ill-typed.
    pub fn from_json(v: &JsonValue) -> (r: Option<User>)
        ensures
            r is Some <==> user_parses(v@),
            r matches Some(u) ==> user_wf(v@, u),
    {
        let id = match v.get_i32("id") {
            Some(x) => x,
            None => {
                return None;
            },
        };
        let account = match v.get_str("account") {
            Some(x) => x,
            None => {
                return None;
            },
        };
        let avatar = match v.get_str("avatar") {
            Some(x) => x,
            None => {
                return None;
            },
        };
        let realname = match v.get_str("realname") {
            Some(x) => x,
            None => {
                return None;
            },
        };
        Some(User { id, account, avatar, realname })
    }
}

/// An optional text field: `Some(None)` when missing or null, `Some(Some(s))`
/// on a string, `None` (an error) on any other value.
pub open spec fn opt_str_field(t: JsonTree, key: Seq<char>) -> Option<Option<Seq<char>>> {
    match t.get(key) {
        None => Some(None),
        Some(JsonTree::Null) => Some(None),
        Some(JsonTree::Str(s)) => Some(Some(s)),
        Some(_) => None,
    }
}

/// An optional 32-bit integer field, read as `opt_str_field` is.
pub open spec fn opt_i32_field(t: JsonTree, key: Seq<char>) -> Option<Option<i32>> {
    match t.get(key) {
        None => Some(None),
        Some(JsonTree::Null) => Some(None),
        Some(JsonTree::Num(Some(n))) => if i32::MIN <= n <= i32::MAX {
            Some(Some(n as i32))
        } else {
            None
        },
        Some(_) => None,
    }
}

/// A defaulted text field: the empty text when missing, the text on a
/// string, an error on any other value (null included).
pub open spec fn def_str_field(t: JsonTree, key: Seq<char>) -> Option<Seq<char>> {
    match t.get(key) {
        None => Some(Seq::empty()),
        Some(JsonTree::Str(s)) => Some(s),
        Some(_) => None,
    }
}

/// An optional embedded user: absent on a missing key or null.
pub open spec fn opt_user_ok(t: JsonTree, key: Seq<char>) -> bool {
    match t.get(key) {
        None => true,
        Some(JsonTree::Null) => true,
        Some(sub) => user_parses(sub),
    }
}

/// `r` is exactly the optional embedded user read off `t` under `key`.
pub open spec fn opt_user_wf(t: JsonTree, key: Seq<char>, r: Option<User>) -> bool {
    match t.get(key) {
        None => r is None,
        Some(JsonTree::Null) => r is None,
        Some(sub) => (r matches Some(u) && user_wf(sub, u)),
    }
}

pub fn get_opt_str(v: &JsonValue, key: &str) -> (r: Option<Option<String>>)
    ensures
        r is Some <==> opt_str_field(v@, key@) is Some,
        r matches Some(o) ==> match o {
            Some(s) => opt_str_field(v@, key@) == Some(Some(s@)),
            None => opt_str_field(v@, key@) == Some(None::<Seq<char>>),
        },
{
    match v.get(key) {
        None => Some(None),
        Some(JsonValue::Null) => Some(None),
        Some(JsonValue::Str(s)) => Some(Some(s.clone())),
        Some(_) => None,
    }
}

pub fn get_opt_i32(v: &JsonValue, key: &str) -> (r: Option<Option<i32>>)
    ensures
        r == opt_i32_field(v@, key@),
{
    match v.get(key) {
        None => Some(None),
        Some(JsonValue::Null) => Some(None),
        Some(JsonValue::Num(Some(n))) => {
            let n = *n;
            if i32::MIN as i64 <= n && n <= i32::MAX as i64 {
                Some(Some(n as i32))
            } else {
                None
            }
        },
        Some(_) => None,
    }
}

pub fn get_def_str(v: &JsonValue, key: &str) -> (r: Option<String>)
    ensures
        r is Some <==> def_str_field(v@, key@) is Some,
        r matches Some(s) ==> def_str_field(v@, key@) == Some(s@),
{
    match v.get(key) {
        None => Some(String::new()),
        Some(JsonValue::Str(s)) => Some(s.clone()),
        Some(_) => None,
    }
}

pub fn get_opt_user(v: &JsonValue, key: &str) -> (r: Option<Option<User>>)
    ensures
        r is Some <==> opt_user_ok(v@, key@),
        r matches Some(o) ==> opt_user_wf(v@, key@, o),
{
    match v.get(key) {
        None => Some(None),
        Some(JsonValue::Null) => Some(None),
        Some(sub) => match User::from_json(sub) {
            Some(u) => Some(Some(u)),
            None => None,
        },
    }
}

/// The status of a bug on the wire: either a bare code string or an object
/// carrying a code and a display name.
#[derive(Debug, Clone)]
pub struct BugStatus {
    pub code: String,
    pub name: String,
}

/// The status code read off a status value: the string itself, an object's
/// `code` field, or `unknown`.
pub open spec fn status_code_of(t: JsonTree) -> Seq<char> {
    match t {
        JsonTree::Str(s) => s,
        JsonTree::Obj(_) => match t.str_field("code"@) {
            Some(c) => c,
            None => "unknown"@,
        },
        _ => "unknown"@,
    }
}

/// The status display name read off a status value: the string itself, an
/// object's `name` field (the code when absent), or a fixed placeholder.
pub open spec fn status_name_of(t: JsonTree) -> Seq<char> {
    match t {
        JsonTree::Str(s) => s,
        JsonTree::Obj(_) => match t.str_field("name"@) {
            Some(nm) => nm,
            None => status_code_of(t),
        },
        _ => "未知"@,
    }
}

impl BugStatus {
    /// Read a status off any JSON value; never fails, falling back to the
    /// `unknown` code.
    pub fn from_json(v: &JsonValue) -> (r: BugStatus)
        ensures
            r.code@ == status_code_of(v@),
            r.name@ == status_name_of(v@),
    {
        match v {
            JsonValue::Str(s) => BugStatus { code: s.clone(), name: s.clone() },
            JsonValue::Obj(_) => {
                let code = match v.get_str("code") {
                    Some(c) => c,
                    None => String::from_str("unknown"),
                };
                let name = match v.get_str("name") {
                    Some(nm) => nm,
                    None => code.clone(),
                };
                BugStatus { code, name }
            },
            _ => BugStatus {
                code: String::from_str("unknown"),
                name: String::from_str("未知"),
            },
        }
    }
}

/// A bug record.  `base_url` is never read off the wire: it carries the API
/// root the record came from, for downstream presentation transforms only.
#[derive(Debug, Clone)]
#[verifier::ext_equal]
pub struct Bug {
    pub id: i32,
    pub product: i32,
    pub branch: i32,
    pub module: i32,
    pub project: i32,
    pub execution: i32,
    pub to_task: i32,
    pub to_story: i32,
    pub title: String,
    pub keywords: String,
    pub severity: i32,
    pub pri: i32,
    pub bug_type: String,
    pub os: String,
    pub browser: String,
    pub steps: String,
    pub task: Option<i32>,
    pub story: Option<i32>,
    pub opened_by: Option<User>,
    pub opened_date: String,
    pub deadline: Option<String>,
    pub assigned_to: Option<User>,
    pub assigned_date: Option<String>,
    pub resolved_by: Option<User>,
    pub resolved_date: Option<String>,
    pub closed_by: Option<User>,
    pub closed_date: Option<String>,
    pub status: BugStatus,
    pub base_url: Option<String>,
}

/// `r` is exactly the optional text read off `t` under `key`.
pub open spec fn opt_str_wf(t: JsonTree, key: Seq<char>, r: Option<String>) -> bool {
    match r {
        Some(s) => opt_str_field(t, key) == Some(Some(s@)),
        None => opt_str_field(t, key) == Some(None::<Seq<char>>),
    }
}

/// All of a bug record's required fields are present and well-typed, and its
/// optional fields are well-typed where present.
pub open spec fn bug_parses(t: JsonTree) -> bool {
    &&& t.i32_field("id"@) is Some
    &&& t.i32_field("product"@) is Some
    &&& t.i32_field("branch"@) is Some
    &&& t.i32_field("module"@) is Some
    &&& t.i32_field("project"@) is Some
    &&& t.i32_field("execution"@) is Some
    &&& t.i32_field("toTask"@) is Some
    &&& t.i32_field("toStory"@) is Some
    &&& t.str_field("title"@) is Some
    &&& t.str_field("keywords"@) is Some
    &&& t.i32_field("severity"@) is Some
    &&& t.i32_field("pri"@) is Some
    &&& t.str_field("type"@) is Some
    &&& def_str_field(t, "os"@) is Some
    &&& def_str_field(t, "browser"@) is Some
    &&& t.str_field("steps"@) is Some
    &&& opt_i32_field(t, "task"@) is Some
    &&& opt_i32_field(t, "story"@) is Some
    &&& opt_user_ok(t, "openedBy"@)
    &&& t.str_field("openedDate"@) is Some
    &&& opt_str_field(t, "deadline"@) is Some
    &&& opt_user_ok(t, "assignedTo"@)
    &&& opt_str_field(t, "assignedDate"@) is Some
    &&& opt_user_ok(t, "resolvedBy"@)
    &&& opt_str_field(t, "resolvedDate"@) is Some
    &&& opt_user_ok(t, "closedBy"@)
    &&& opt_str_field(t, "closedDate"@) is Some
    &&& t.get("status"@) is Some
}

/// `b` is exactly the bug record read off `t`, with no source root attached.
pub open spec fn bug_wf(t: JsonTree, b: Bug) -> bool {
    &&& t.i32_field("id"@) == Some(b.id)
    &&& t.i32_field("product"@) == Some(b.product)
    &&& t.i32_field("branch"@) == Some(b.branch)
    &&& t.i32_field("module"@) == Some(b.module)
    &&& t.i32_field("project"@) == Some(b.project)
    &&& t.i32_field("execution"@) == Some(b.execution)
    &&& t.i32_field("toTask"@) == Some(b.to_task)
    &&& t.i32_field("toStory"@) == Some(b.to_story)
    &&& t.str_field("title"@) == Some(b.title@)
    &&& t.str_field("keywords"@) == Some(b.keywords@)
    &&& t.i32_field("severity"@) == Some(b.severity)
    &&& t.i32_field("pri"@) == Some(b.pri)
    &&& t.str_field("type"@) == Some(b.bug_type@)
    &&& def_str_field(t, "os"@) == Some(b.os@)
    &&& def_str_field(t, "browser"@) == Some(b.browser@)
    &&& t.str_field("steps"@) == Some(b.steps@)
    &&& opt_i32_field(t, "task"@) == Some(b.task)
    &&& opt_i32_field(t, "story"@) == Some(b.story)
    &&& opt_user_wf(t, "openedBy"@, b.opened_by)
    &&& t.str_field("openedDate"@) == Some(b.opened_date@)
    &&& opt_str_wf(t, "deadline"@, b.deadline)
    &&& opt_user_wf(t, "assignedTo"@, b.assigned_to)
    &&& opt_str_wf(t, "assignedDate"@, b.assigned_date)
    &&& opt_user_wf(t, "resolvedBy"@, b.resolved_by)
    &&& opt_str_wf(t, "resolvedDate"@, b.resolved_date)
    &&& opt_user_wf(t, "closedBy"@, b.closed_by)
    &&& opt_str_wf(t, "closedDate"@, b.closed_date)
    &&& (t.get("status"@) matches Some(st) && b.status.code@ == status_code_of(st)
        && b.status.name@ == status_name_of(st))
    &&& b.base_url is None
}

/// `b` is exactly the bug record read off `t`, with the given source root
/// attached.
pub open spec fn bug_with_root_wf(t: JsonTree, b: Bug, root: Seq<char>) -> bool {
    &&& bug_wf(t, Bug { base_url: None, ..b })
    &&& (b.base_url matches Some(u) && u@ == root)
}

/// `bs` is exactly the bug list read off `items`, in order, each with the
/// given source root attached.
pub open spec fn bugs_with_root_wf(items: Seq<JsonTree>, bs: Seq<Bug>, root: Seq<char>) -> bool {
    &&& bs.len() == items.len()
    &&& forall|i: int| 0 <= i < items.len() ==> bug_with_root_wf(items[i], #[trigger] bs[i], root)
}

impl Bug {
    /// Parse a bug record; `None` exactly when a required field is missing
    /// or any field is ill-typed.
    pub fn from_json(v: &JsonValue) -> (r: Option<Bug>)
        ensures
            r is Some <==> bug_parses(v@),
            r matches Some(b) ==> bug_wf(v@, b),
    {
        let id = match v.get_i32("id") { Some(x) => x, None => { return None; } };
        let product = match v.get_i32("product") { Some(x) => x, None => { return None; } };
        let branch = match v.get_i32("branch") { Some(x) => x, None => { return None; } };
        let module = match v.get_i32("module") { Some(x) => x, None => { return None; } };
        let project = match v.get_i32("project") { Some(x) => x, None => { return None; } };
        let execution = match v.get_i32("execution") { Some(x) => x, None => { return None; } };
        let to_task = match v.get_i32("toTask") { Some(x) => x, None => { return None; } };
        let to_story = match v.get_i32("toStory") { Some(x) => x, None => { return None; } };
        let title = match v.get_str("title") { Some(x) => x, None => { return None; } };
        let keywords = match v.get_str("keywords") { Some(x) => x, None => { return None; } };
        let severity = match v.get_i32("severity") { Some(x) => x, None => { return None; } };
        let pri = match v.get_i32("pri") { Some(x) => x, None => { return None; } };
        let bug_type = match v.get_str("type") { Some(x) => x, None => { return None; } };
        let os = match get_def_str(v, "os") { Some(x) => x, None => { return None; } };
        let browser = match get_def_str(v, "browser") { Some(x) => x, None => { return None; } };
        let steps = match v.get_str("steps") { Some(x) => x, None => { return None; } };
        let task = match get_opt_i32(v, "task") { Some(x) => x, None => { return None; } };
        let story = match get_opt_i32(v, "story") { Some(x) => x, None => { return None; } };
        let opened_by = match get_opt_user(v, "openedBy") { Some(x) => x, None => { return None; } };
        let opened_date = match v.get_str("openedDate") { Some(x) => x, None => { return None; } };
        let deadline = match get_opt_str(v, "deadline") { Some(x) => x, None => { return None; } };
        let assigned_to = match get_opt_user(v, "assignedTo") { Some(x) => x, None => { return None; } };
        let assigned_date = match get_opt_str(v, "assignedDate") { Some(x) => x, None => { return None; } };
        let resolved_by = match get_opt_user(v, "resolvedBy") { Some(x) => x, None => { return None; } };
        let resolved_date = match get_opt_str(v, "resolvedDate") { Some(x) => x, None => { return None; } };
        let closed_by = match get_opt_user(v, "closedBy") { Some(x) => x, None => { return None; } };
        let closed_date = match get_opt_str(v, "closedDate") { Some(x) => x, None => { return None; } };
        let status = match v.get("status") {
            Some(st) => BugStatus::from_json(st),
            None => { return None; },
        };
        Some(Bug {
            id, product, branch, module, project, execution, to_task, to_story,
            title, keywords, severity, pri, bug_type, os, browser, steps, task,
            story, opened_by, opened_date, deadline, assigned_to, assigned_date,
            resolved_by, resolved_date, closed_by, closed_date, status,
            base_url: None,
        })
    }

    /// Attach the API root the record came from, leaving every other field
    /// as it is.
    pub fn with_source_root(self, root: String) -> (r: Bug)
        ensures
            r == (Bug { base_url: Some(root), ..self }),
    {
        Bug { base_url: Some(root), ..self }
    }
}

use crate::jsonval::{lemma_trees_of, trees_of};

/// Every item of an array parses as a user.
pub open spec fn users_parse(items: Seq<JsonTree>) -> bool {
    forall|i: int| 0 <= i < items.len() ==> user_parses(#[trigger] items[i])
}

/// `us` is exactly the user list read off `items`, in order.
pub open spec fn users_wf(items: Seq<JsonTree>, us: Seq<User>) -> bool {
    &&& us.len() == items.len()
    &&& forall|i: int| 0 <= i < items.len() ==> user_wf(items[i], #[trigger] us[i])
}

fn users_from_json_array(items: &Vec<JsonValue>) -> (r: Option<Vec<User>>)
    ensures
        r is Some <==> users_parse(trees_of(items@)),
        r matches Some(us) ==> users_wf(trees_of(items@), us@),
{
    proof {
        lemma_trees_of(items@);
    }
    let ghost trees = trees_of(items@);
    let mut out: Vec<User> = Vec::new();
    let mut i: usize = 0;
    while i < items.len()
        invariant
            i <= items@.len(),
            trees == trees_of(items@),
            trees.len() == items@.len(),
            forall|j: int| 0 <= j < items@.len() ==> trees[j] == (#[trigger] items@[j])@,
            out@.len() == i,
            forall|j: int| 0 <= j < i ==> user_wf(trees[j], #[trigger] out@[j]),
        decreases items@.len() - i,
    {
        match User::from_json(&items[i]) {
            Some(u) => {
                out.push(u);
            },
            None => {
                return None;
            },
        }
        i = i + 1;
    }
    proof {
        assert forall|j: int| 0 <= j < trees.len() implies user_parses(#[trigger] trees[j]) by {
            assert(user_wf(trees[j], out@[j]));
        }
    }
    Some(out)
}

/// A well-formed user list parses item by item.
proof fn lemma_users_wf_parse(items: Seq<JsonTree>, us: Seq<User>)
    requires
        users_wf(items, us),
    ensures
        users_parse(items),
{
    assert forall|i: int| 0 <= i < items.len() implies user_parses(#[trigger] items[i]) by {
        assert(user_wf(items[i], us[i]));
    }
}

/// An optional embedded user list: absent on a missing key or null.
pub open spec fn opt_users_ok(t: JsonTree, key: Seq<char>) -> bool {
    match t.get(key) {
        None => true,
        Some(JsonTree::Null) => true,
        Some(JsonTree::Arr(items)) => users_parse(items),
        Some(_) => false,
    }
}

/// `r` is exactly the optional user list read off `t` under `key`.
pub open spec fn opt_users_wf(t: JsonTree, key: Seq<char>, r: Option<Vec<User>>) -> bool {
    match t.get(key) {
        None => r is None,
        Some(JsonTree::Null) => r is None,
        Some(JsonTree::Arr(items)) => (r matches Some(us) && users_wf(items, us@)),
        Some(_) => false,
    }
}

pub fn get_opt_users(v: &JsonValue, key: &str) -> (r: Option<Option<Vec<User>>>)
    ensures
        r is Some <==> opt_users_ok(v@, key@),
        r matches Some(o) ==> opt_users_wf(v@, key@, o),
{
    match v.get(key) {
        None => Some(None),
        Some(JsonValue::Null) => Some(None),
        Some(JsonValue::Arr(items)) => match users_from_json_array(items) {
            Some(us) => Some(Some(us)),
            None => None,
        },
        Some(_) => None,
    }
}

/// The profile of the authenticated user.
#[derive(Debug, Clone)]
pub struct UserInfo {
    pub id: i32,
    pub user_type: String,
    pub dept: i32,
    pub account: String,
    pub realname: String,
    pub nickname: Option<String>,
    pub avatar: Option<String>,
    pub birthday: Option<String>,
    pub gender: Option<String>,
    pub mobile: Option<String>,
    pub phone: Option<String>,
    pub weixin: Option<String>,
    pub address: Option<String>,
    pub join: Option<String>,
    pub admin: bool,
}

/// All of a profile's required fields are present and well-typed, and its
/// optional fields are well-typed where present.
pub open spec fn user_info_parses(t: JsonTree) -> bool {
    &&& t.i32_field("id"@) is Some
    &&& t.str_field("type"@) is Some
    &&& t.i32_field("dept"@) is Some
    &&& t.str_field("account"@) is Some
    &&& t.str_field("realname"@) is Some
    &&& opt_str_field(t, "nickname"@) is Some
    &&& opt_str_field(t, "avatar"@) is Some
    &&& opt_str_field(t, "birthday"@) is Some
    &&& opt_str_field(t, "gender"@) is Some
    &&& opt_str_field(t, "mobile"@) is Some
    &&& opt_str_field(t, "phone"@) is Some
    &&& opt_str_field(t, "weixin"@) is Some
    &&& opt_str_field(t, "address"@) is Some
    &&& opt_str_field(t, "join"@) is Some
    &&& t.bool_field("admin"@) is Some
}

/// `u` is exactly the profile read off `t`.
pub open spec fn user_info_wf(t: JsonTree, u: UserInfo) -> bool {
    &&& t.i32_field("id"@) == Some(u.id)
    &&& t.str_field("type"@) == Some(u.user_type@)
    &&& t.i32_field("dept"@) == Some(u.dept)
    &&& t.str_field("account"@) == Some(u.account@)
    &&& t.str_field("realname"@) == Some(u.realname@)
    &&& opt_str_wf(t, "nickname"@, u.nickname)
    &&& opt_str_wf(t, "avatar"@, u.avatar)
    &&& opt_str_wf(t, "birthday"@, u.birthday)
    &&& opt_str_wf(t, "gender"@, u.gender)
    &&& opt_str_wf(t, "mobile"@, u.mobile)
    &&& opt_str_wf(t, "phone"@, u.phone)
    &&& opt_str_wf(t, "weixin"@, u.weixin)
    &&& opt_str_wf(t, "address"@, u.address)
    &&& opt_str_wf(t, "join"@, u.join)
    &&& t.bool_field("admin"@) == Some(u.admin)
}

impl UserInfo {
    /// Parse the authenticated user's profile; `None` exactly when a
    /// required field is missing or any field is ill-typed.
    pub fn from_json(v: &JsonValue) -> (r: Option<UserInfo>)
        ensures
            r is Some <==> user_info_parses(v@),
            r matches Some(u) ==> user_info_wf(v@, u),
    {
        let id = match v.get_i32("id") { Some(x) => x, None => { return None; } };
        let user_type = match v.get_str("type") { Some(x) => x, None => { return None; } };
        let dept = match v.get_i32("dept") { Some(x) => x, None => { return None; } };
        let account = match v.get_str("account") { Some(x) => x, None => { return None; } };
        let realname = match v.get_str("realname") { Some(x) => x, None => { return None; } };
        let nickname = match get_opt_str(v, "nickname") { Some(x) => x, None => { return None; } };
        let avatar = match get_opt_str(v, "avatar") { Some(x) => x, None => { return None; } };
        let birthday = match get_opt_str(v, "birthday") { Some(x) => x, None => { return None; } };
        let gender = match get_opt_str(v, "gender") { Some(x) => x, None => { return None; } };
        let mobile = match get_opt_str(v, "mobile") { Some(x) => x, None => { return None; } };
        let phone = match get_opt_str(v, "phone") { Some(x) => x, None => { return None; } };
        let weixin = match get_opt_str(v, "weixin") { Some(x) => x, None => { return None; } };
        let address = match get_opt_str(v, "address") { Some(x) => x, None => { return None; } };
        let join = match get_opt_str(v, "join") { Some(x) => x, None => { return None; } };
        let admin = match v.get_bool("admin") { Some(x) => x, None => { return None; } };
        Some(UserInfo {
            id, user_type, dept, account, realname, nickname, avatar, birthday,
            gender, mobile, phone, weixin, address, join, admin,
        })
    }
}

/// A product record.
#[derive(Debug, Clone)]
pub struct Product {
    pub id: i32,
    pub program: i32,
    pub name: String,
    pub code: String,
    pub line: i32,
    pub po: Option<User>,
    pub qd: Option<User>,
    pub rd: Option<User>,
    pub product_type: String,
    pub desc: String,
    pub acl: String,
    pub whitelist: Option<Vec<User>>,
    pub created_by: Option<User>,
    pub created_date: String,
}

/// All of a product record's required fields are present and well-typed, and
/// its optional fields are well-typed where present.
pub open spec fn product_parses(t: JsonTree) -> bool {
    &&& t.i32_field("id"@) is Some
    &&& t.i32_field("program"@) is Some
    &&& t.str_field("name"@) is Some
    &&& t.str_field("code"@) is Some
    &&& t.i32_field("line"@) is Some
    &&& opt_user_ok(t, "PO"@)
    &&& opt_user_ok(t, "QD"@)
    &&& opt_user_ok(t, "RD"@)
    &&& t.str_field("type"@) is Some
    &&& t.str_field("desc"@) is Some
    &&& t.str_field("acl"@) is Some
    &&& opt_users_ok(t, "whitelist"@)
    &&& opt_user_ok(t, "createdBy"@)
    &&& t.str_field("createdDate"@) is Some
}

/// `p` is exactly the product record read off `t`.
pub open spec fn product_wf(t: JsonTree, p: Product) -> bool {
    &&& t.i32_field("id"@) == Some(p.id)
    &&& t.i32_field("program"@) == Some(p.program)
    &&& t.str_field("name"@) == Some(p.name@)
    &&& t.str_field("code"@) == Some(p.code@)
    &&& t.i32_field("line"@) == Some(p.line)
    &&& opt_user_wf(t, "PO"@, p.po)
    &&& opt_user_wf(t, "QD"@, p.qd)
    &&& opt_user_wf(t, "RD"@, p.rd)
    &&& t.str_field("type"@) == Some(p.product_type@)
    &&& t.str_field("desc"@) == Some(p.desc@)
    &&& t.str_field("acl"@) == Some(p.acl@)
    &&& opt_users_wf(t, "whitelist"@, p.whitelist)
    &&& opt_user_wf(t, "createdBy"@, p.created_by)
    &&& t.str_field("createdDate"@) == Some(p.created_date@)
}

impl Product {
    /// Parse a product record; `None` exactly when a required field is
    /// missing or any field is ill-typed.
    pub fn from_json(v: &JsonValue) -> (r: Option<Product>)
        ensures
            r is Some <==> product_parses(v@),
            r matches Some(p) ==> product_wf(v@, p),
    {
        let id = match v.get_i32("id") { Some(x) => x, None => { return None; } };
        let program = match v.get_i32("program") { Some(x) => x, None => { return None; } };
        let name = match v.get_str("name") { Some(x) => x, None => { return None; } };
        let code = match v.get_str("code") { Some(x) => x, None => { return None; } };
        let line = match v.get_i32("line") { Some(x) => x, None => { return None; } };
        let po = match get_opt_user(v, "PO") { Some(x) => x, None => { return None; } };
        let qd = match get_opt_user(v, "QD") { Some(x) => x, None => { return None; } };
        let rd = match get_opt_user(v, "RD") { Some(x) => x, None => { return None; } };
        let product_type = match v.get_str("type") { Some(x) => x, None => { return None; } };
        let desc = match v.get_str("desc") { Some(x) => x, None => { return None; } };
        let acl = match v.get_str("acl") { Some(x) => x, None => { return None; } };
        let whitelist = match get_opt_users(v, "whitelist") { Some(x) => x, None => { return None; } };
        let created_by = match get_opt_user(v, "createdBy") { Some(x) => x, None => { return None; } };
        let created_date = match v.get_str("createdDate") { Some(x) => x, None => { return None; } };
        Some(Product {
            id, program, name, code, line, po, qd, rd, product_type, desc, acl,
            whitelist, created_by, created_date,
        })
    }
}

/// Every item of an array parses as a bug.
pub open spec fn bugs_parse(items: Seq<JsonTree>) -> bool {
    forall|i: int| 0 <= i < items.len() ==> bug_parses(#[trigger] items[i])
}

/// `bs` is exactly the bug list read off `items`, in order.
pub open spec fn bugs_wf(items: Seq<JsonTree>, bs: Seq<Bug>) -> bool {
    &&& bs.len() == items.len()
    &&& forall|i: int| 0 <= i < items.len() ==> bug_wf(items[i], #[trigger] bs[i])
}

/// Parse every item of a JSON array as a bug; `None` exactly when some item
/// fails.
pub fn bugs_from_json_array(items: &Vec<JsonValue>) -> (r: Option<Vec<Bug>>)
    ensures
        r is Some <==> bugs_parse(trees_of(items@)),
        r matches Some(bs) ==> bugs_wf(trees_of(items@), bs@),
{
    proof {
        lemma_trees_of(items@);
    }
    let ghost trees = trees_of(items@);
    let mut out: Vec<Bug> = Vec::new();
    let mut i: usize = 0;
    while i < items.len()
        invariant
            i <= items@.len(),
            trees == trees_of(items@),
            trees.len() == items@.len(),
            forall|j: int| 0 <= j < items@.len() ==> trees[j] == (#[trigger] items@[j])@,
            out@.len() == i,
            forall|j: int| 0 <= j < i ==> bug_wf(trees[j], #[trigger] out@[j]),
        decreases items@.len() - i,
    {
        match Bug::from_json(&items[i]) {
            Some(b) => {
                out.push(b);
            },
            None => {
                return None;
            },
        }
        i = i + 1;
    }
    proof {
        assert forall|j: int| 0 <= j < trees.len() implies bug_parses(#[trigger] trees[j]) by {
            assert(bug_wf(trees[j], out@[j]));
        }
    }
    Some(out)
}

/// Every item of an array parses as a product.
pub open spec fn products_parse(items: Seq<JsonTree>) -> bool {
    forall|i: int| 0 <= i < items.len() ==> product_parses(#[trigger] items[i])
}

/// `ps` is exactly the product list read off `items`, in order.
pub open spec fn products_wf(items: Seq<JsonTree>, ps: Seq<Product>) -> bool {
    &&& ps.len() == items.len()
    &&& forall|i: int| 0 <= i < items.len() ==> product_wf(items[i], #[trigger] ps[i])
}

/// Parse every item of a JSON array as a product; `None` exactly when some
/// item fails.
pub fn products_from_json_array(items: &Vec<JsonValue>) -> (r: Option<Vec<Product>>)
    ensures
        r is Some <==> products_parse(trees_of(items@)),
        r matches Some(ps) ==> products_wf(trees_of(items@), ps@),
{
    proof {
        lemma_trees_of(items@);
    }
    let ghost trees = trees_of(items@);
    let mut out: Vec<Product> = Vec::new();
    let mut i: usize = 0;
    while i < items.len()
        invariant
            i <= items@.len(),
            trees == trees_of(items@),
            trees.len() == items@.len(),
            forall|j: int| 0 <= j < items@.len() ==> trees[j] == (#[trigger] items@[j])@,
            out@.len() == i,
            forall|j: int| 0 <= j < i ==> product_wf(trees[j], #[trigger] out@[j]),
        decreases items@.len() - i,
    {
        match Product::from_json(&items[i]) {
            Some(p) => {
                out.push(p);
            },
            None => {
                return None;
            },
        }
        i = i + 1;
    }
    proof {
        assert forall|j: int| 0 <= j < trees.len() implies product_parses(#[trigger] trees[j]) by {
            assert(product_wf(trees[j], out@[j]));
            match trees[j].get("whitelist"@) {
                Some(JsonTree::Arr(witems)) => {
                    match out@[j].whitelist {
                        Some(us) => {
                            lemma_users_wf_parse(witems, us@);
                        },
                        None => {
                        },
                    }
                },
                _ => {
                },
            }
        }
    }
    Some(out)
}

/// The paginated envelope a bug-list endpoint answers with.
#[derive(Debug, Clone)]
pub struct BugListResponse {
    pub page: i32,
    pub total: i32,
    pub limit: i32,
    pub bugs: Vec<Bug>,
}

/// The paginated envelope a product-list endpoint answers with.
#[derive(Debug, Clone)]
pub struct ProductListResponse {
    pub page: i32,
    pub total: i32,
    pub limit: i32,
    pub products: Vec<Product>,
}

/// A paginated envelope's counters are present and the keyed item list
/// parses record by record.
pub open spec fn bug_list_parses(t: JsonTree) -> bool {
    &&& t.i32_field("page"@) is Some
    &&& t.i32_field("total"@) is Some
    &&& t.i32_field("limit"@) is Some
    &&& (t.get("bugs"@) matches Some(JsonTree::Arr(items)) && bugs_parse(items))
}

/// `r` is exactly the envelope read off `t`.
pub open spec fn bug_list_wf(t: JsonTree, r: BugListResponse) -> bool {
    &&& t.i32_field("page"@) == Some(r.page)
    &&& t.i32_field("total"@) == Some(r.total)
    &&& t.i32_field("limit"@) == Some(r.limit)
    &&& (t.get("bugs"@) matches Some(JsonTree::Arr(items)) && bugs_wf(items, r.bugs@))
}

impl BugListResponse {
    /// Parse a paginated bug-list envelope; `None` exactly when a counter
    /// is missing, the list is missing, or any record fails.
    pub fn from_json(v: &JsonValue) -> (r: Option<BugListResponse>)
        ensures
            r is Some <==> bug_list_parses(v@),
            r matches Some(resp) ==> bug_list_wf(v@, resp),
    {
        let page = match v.get_i32("page") { Some(x) => x, None => { return None; } };
        let total = match v.get_i32("total") { Some(x) => x, None => { return None; } };
        let limit = match v.get_i32("limit") { Some(x) => x, None => { return None; } };
        let bugs = match v.get("bugs") {
            Some(JsonValue::Arr(items)) => match bugs_from_json_array(items) {
                Some(bs) => bs,
                None => { return None; },
            },
            _ => { return None; },
        };
        Some(BugListResponse { page, total, limit, bugs })
    }
}

/// A paginated envelope's counters are present and the keyed item list
/// parses record by record.
pub open spec fn product_list_parses(t: JsonTree) -> bool {
    &&& t.i32_field("page"@) is Some
    &&& t.i32_field("total"@) is Some
    &&& t.i32_field("limit"@) is Some
    &&& (t.get("products"@) matches Some(JsonTree::Arr(items)) && products_parse(items))
}

/// `r` is exactly the envelope read off `t`.
pub open spec fn product_list_wf(t: JsonTree, r: ProductListResponse) -> bool {
    &&& t.i32_field("page"@) == Some(r.page)
    &&& t.i32_field("total"@) == Some(r.total)
    &&& t.i32_field("limit"@) == Some(r.limit)
    &&& (t.get("products"@) matches Some(JsonTree::Arr(items)) && products_wf(items, r.products@))
}

impl ProductListResponse {
    /// Parse a paginated product-list envelope; `None` exactly when a
    /// counter is missing, the list is missing, or any record fails.
    pub fn from_json(v: &JsonValue) -> (r: Option<ProductListResponse>)
        ensures
            r is Some <==> product_list_parses(v@),
            r matches Some(resp) ==> product_list_wf(v@, resp),
    {
        let page = match v.get_i32("page") { Some(x) => x, None => { return None; } };
        let total = match v.get_i32("total") { Some(x) => x, None => { return None; } };
        let limit = match v.get_i32("limit") { Some(x) => x, None => { return None; } };
        let products = match v.get("products") {
            Some(JsonValue::Arr(items)) => match products_from_json_array(items) {
                Some(ps) => ps,
                None => { return None; },
            },
            _ => { return None; },
        };
        Some(ProductListResponse { page, total, limit, products })
    }
}

/// The remote configuration: where the service lives and how to log in.
/// The password is persisted in clear — a documented weakness of the wire
/// format, not a goal.
#[derive(Debug, Clone)]
#[verifier::ext_equal]
pub struct ZentaoConfig {
    pub base_url: String,
    pub account: String,
    pub password: String,
}

/// All of a configuration record's fields are present and well-typed.
pub open spec fn config_parses(t: JsonTree) -> bool {
    &&& t.str_field("baseUrl"@) is Some
    &&& t.str_field("account"@) is Some
    &&& t.str_field("password"@) is Some
}

/// `c` is exactly the configuration read off `t`.
pub open spec fn config_wf(t: JsonTree, c: ZentaoConfig) -> bool {
    &&& t.str_field("baseUrl"@) == Some(c.base_url@)
    &&& t.str_field("account"@) == Some(c.account@)
    &&& t.str_field("password"@) == Some(c.password@)
}

impl ZentaoConfig {
    /// An equal copy of the configuration.
    pub fn duplicate(&self) -> (r: ZentaoConfig)
        ensures
            r == *self,
    {
        let r = ZentaoConfig {
            base_url: self.base_url.clone(),
            account: self.account.clone(),
            password: self.password.clone(),
        };
        proof {
            assert(r =~= *self);
        }
        r
    }

    /// Parse a persisted configuration record; `None` exactly when a field
    /// is missing or ill-typed.
    pub fn from_json(v: &JsonValue) -> (r: Option<ZentaoConfig>)
        ensures
            r is Some <==> config_parses(v@),
            r matches Some(c) ==> config_wf(v@, c),
    {
        let base_url = match v.get_str("baseUrl") { Some(x) => x, None => { return None; } };
        let account = match v.get_str("account") { Some(x) => x, None => { return None; } };
        let password = match v.get_str("password") { Some(x) => x, None => { return None; } };
        Some(ZentaoConfig { base_url, account, password })
    }
}

/// The body of an authentication request.
#[derive(Debug, Clone)]
pub struct LoginRequest {
    pub account: String,
    pub password: String,
}

/// The body of a successful authentication response.
#[derive(Debug, Clone)]
pub struct LoginResponse {
    pub token: String,
}

impl LoginResponse {
    /// Read the token off an authentication response; `None` exactly when
    /// the `token` field is missing or not a string.
    pub fn from_json(v: &JsonValue) -> (r: Option<LoginResponse>)
        ensures
            r is Some <==> v@.str_field("token"@) is Some,
            r matches Some(lr) ==> v@.str_field("token"@) == Some(lr.token@),
    {
        let token = match v.get_str("token") { Some(x) => x, None => { return None; } };
        Some(LoginResponse { token })
    }
}

} // verus!
