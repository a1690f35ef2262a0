use zentao_client::entities::{
    Bug, BugListResponse, BugStatus, LoginResponse, Product, ProductListResponse, User, UserInfo,
    ZentaoConfig,
};
use zentao_client::jsonval::parse_json;

const USER_JSON: &str = "{\"id\":7,\"account\":\"alice\",\"avatar\":\"\",\"realname\":\"Alice\"}";

fn bug_json() -> String {
    format!(
        "{{\"id\":11,\"product\":2,\"branch\":0,\"module\":3,\"project\":4,\"execution\":5,\
         \"toTask\":0,\"toStory\":0,\"title\":\"crash on save\",\"keywords\":\"crash\",\
         \"severity\":1,\"pri\":2,\"type\":\"codeerror\",\"steps\":\"<p>do it</p>\",\
         \"task\":null,\"openedBy\":{},\"openedDate\":\"2024-01-02T03:04:05Z\",\
         \"assignedTo\":null,\"status\":\"active\"}}",
        USER_JSON
    )
}

#[test]
fn user_parses_all_fields() {
    let v = parse_json(USER_JSON).unwrap();
    let u = User::from_json(&v).unwrap();
    assert_eq!(u.id, 7);
    assert_eq!(u.account, "alice");
    assert_eq!(u.avatar, "");
    assert_eq!(u.realname, "Alice");
}

#[test]
fn user_missing_required_field_fails() {
    let v = parse_json("{\"id\":7,\"account\":\"a\",\"avatar\":\"\"}").unwrap();
    assert!(User::from_json(&v).is_none());
}

#[test]
fn status_from_bare_string() {
    let v = parse_json("\"active\"").unwrap();
    let s = BugStatus::from_json(&v);
    assert_eq!(s.code, "active");
    assert_eq!(s.name, "active");
}

#[test]
fn status_from_object() {
    let v = parse_json("{\"code\":\"closed\",\"name\":\"Closed\"}").unwrap();
    let s = BugStatus::from_json(&v);
    assert_eq!(s.code, "closed");
    assert_eq!(s.name, "Closed");
}

#[test]
fn status_object_name_falls_back_to_code() {
    let v = parse_json("{\"code\":\"closed\"}").unwrap();
    let s = BugStatus::from_json(&v);
    assert_eq!(s.code, "closed");
    assert_eq!(s.name, "closed");
}

#[test]
fn status_from_anything_else_is_unknown() {
    let v = parse_json("3").unwrap();
    let s = BugStatus::from_json(&v);
    assert_eq!(s.code, "unknown");
    assert_eq!(s.name, "未知");
}

#[test]
fn bug_parses_with_defaults_and_options() {
    let v = parse_json(&bug_json()).unwrap();
    let b = Bug::from_json(&v).unwrap();
    assert_eq!(b.id, 11);
    assert_eq!(b.title, "crash on save");
    assert_eq!(b.bug_type, "codeerror");
    assert_eq!(b.os, "");
    assert_eq!(b.browser, "");
    assert_eq!(b.task, None);
    assert_eq!(b.story, None);
    assert_eq!(b.opened_by.as_ref().unwrap().account, "alice");
    assert!(b.assigned_to.is_none());
    assert_eq!(b.status.code, "active");
    assert!(b.base_url.is_none());
    let rooted = b.with_source_root(String::from("http://h/api.php/v1"));
    assert_eq!(rooted.base_url.as_deref(), Some("http://h/api.php/v1"));
}

#[test]
fn bug_missing_required_field_fails() {
    let without_title = bug_json().replace("\"title\":\"crash on save\",", "");
    let v = parse_json(&without_title).unwrap();
    assert!(Bug::from_json(&v).is_none());
}

#[test]
fn bug_ill_typed_optional_field_fails() {
    let bad = bug_json().replace("\"task\":null,", "\"task\":\"x\",");
    let v = parse_json(&bad).unwrap();
    assert!(Bug::from_json(&v).is_none());
}

#[test]
fn user_info_parses_optionals_absent() {
    let v = parse_json(
        "{\"id\":1,\"type\":\"inside\",\"dept\":0,\"account\":\"a\",\
         \"realname\":\"A\",\"admin\":true,\"nickname\":null}",
    )
    .unwrap();
    let u = UserInfo::from_json(&v).unwrap();
    assert_eq!(u.id, 1);
    assert_eq!(u.user_type, "inside");
    assert!(u.admin);
    assert_eq!(u.nickname, None);
    assert_eq!(u.mobile, None);
}

#[test]
fn product_parses_with_whitelist() {
    let text = format!(
        "{{\"id\":9,\"program\":1,\"name\":\"P\",\"code\":\"p\",\"line\":0,\
         \"PO\":{},\"type\":\"normal\",\"desc\":\"\",\"acl\":\"open\",\
         \"whitelist\":[{}],\"createdBy\":null,\"createdDate\":\"2024-01-01\"}}",
        USER_JSON, USER_JSON
    );
    let v = parse_json(&text).unwrap();
    let p = Product::from_json(&v).unwrap();
    assert_eq!(p.id, 9);
    assert_eq!(p.po.as_ref().unwrap().id, 7);
    assert!(p.qd.is_none());
    assert_eq!(p.whitelist.as_ref().unwrap().len(), 1);
    assert!(p.created_by.is_none());
}

#[test]
fn bug_list_envelope_parses() {
    let text = format!(
        "{{\"page\":1,\"total\":1,\"limit\":20,\"bugs\":[{}]}}",
        bug_json()
    );
    let v = parse_json(&text).unwrap();
    let r = BugListResponse::from_json(&v).unwrap();
    assert_eq!((r.page, r.total, r.limit), (1, 1, 20));
    assert_eq!(r.bugs.len(), 1);
    assert_eq!(r.bugs[0].id, 11);
}

#[test]
fn product_list_envelope_requires_counters() {
    let v = parse_json("{\"products\":[]}").unwrap();
    assert!(ProductListResponse::from_json(&v).is_none());
    let v = parse_json("{\"page\":1,\"total\":0,\"limit\":10,\"products\":[]}").unwrap();
    let r = ProductListResponse::from_json(&v).unwrap();
    assert_eq!(r.products.len(), 0);
}

#[test]
fn config_round_trips_through_duplicate() {
    let c = ZentaoConfig {
        base_url: String::from("http://h:81"),
        account: String::from("admin"),
        password: String::from("p\"w"),
    };
    let d = c.duplicate();
    assert_eq!(d.base_url, c.base_url);
    assert_eq!(d.account, c.account);
    assert_eq!(d.password, c.password);
}

#[test]
fn login_response_reads_token() {
    let v = parse_json("{\"token\":\"abc123\"}").unwrap();
    assert_eq!(LoginResponse::from_json(&v).unwrap().token, "abc123");
    let v = parse_json("{\"token\":1}").unwrap();
    assert!(LoginResponse::from_json(&v).is_none());
}
