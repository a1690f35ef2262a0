use zentao_client::cache::SessionCache;
use zentao_client::client::{
    authorized_root, bug_url, bugs_url, classify_response, image_data_url, image_root_url,
    image_url, login_request_text, login_url, parse_bug_detail_body, parse_login_body,
    parse_product_detail_body, parse_products_body, parse_user_info_body,
    process_bug_batch_item, product_url, products_url, resolve_api_url, user_info_url, ApiError,
    HttpOutcome,
};
use zentao_client::entities::{Bug, LoginRequest, ZentaoConfig};
use zentao_client::store::SessionStore;

const USER_JSON: &str = "{\"id\":7,\"account\":\"alice\",\"avatar\":\"\",\"realname\":\"Alice\"}";

fn bug_json(id: u32) -> String {
    format!(
        "{{\"id\":{},\"product\":2,\"branch\":0,\"module\":3,\"project\":4,\"execution\":5,\
         \"toTask\":0,\"toStory\":0,\"title\":\"t\",\"keywords\":\"\",\
         \"severity\":1,\"pri\":2,\"type\":\"codeerror\",\"steps\":\"s\",\
         \"openedBy\":{},\"openedDate\":\"2024-01-02T03:04:05Z\",\"status\":\"active\"}}",
        id, USER_JSON
    )
}

fn ready_session(base_url: &str) -> (SessionCache, SessionStore) {
    let mut cache = SessionCache::new();
    let mut store = SessionStore::new();
    cache.set(String::from("tok"), 2_000_000_000);
    cache.set_config(ZentaoConfig {
        base_url: String::from(base_url),
        account: String::from("admin"),
        password: String::from("pw"),
    });
    store.save("tok", 2_000_000_000);
    (cache, store)
}

#[test]
fn api_root_is_appended_once() {
    assert_eq!(resolve_api_url("http://h:81"), "http://h:81/api.php/v1");
    assert_eq!(resolve_api_url("http://h:81///"), "http://h:81/api.php/v1");
    assert_eq!(
        resolve_api_url("http://h:81/api.php/v1"),
        "http://h:81/api.php/v1"
    );
}

#[test]
fn endpoint_urls_are_exact() {
    let api = "http://h/api.php/v1";
    assert_eq!(login_url(api), "http://h/api.php/v1/tokens");
    assert_eq!(user_info_url(api), "http://h/api.php/v1/user");
    assert_eq!(products_url(api), "http://h/api.php/v1/products");
    assert_eq!(product_url(api, 3), "http://h/api.php/v1/products/3");
    assert_eq!(bugs_url(api, 12), "http://h/api.php/v1/products/12/bugs");
    assert_eq!(bug_url(api, 450), "http://h/api.php/v1/bugs/450");
}

#[test]
fn login_body_is_json_the_remote_can_read() {
    let req = LoginRequest {
        account: String::from("admin"),
        password: String::from("p\"w"),
    };
    let body = login_request_text(&req);
    assert_eq!(body, "{\"account\":\"admin\",\"password\":\"p\\\"w\"}");
    let parsed: serde_json::Value = serde_json::from_str(&body).unwrap();
    assert_eq!(parsed["account"], "admin");
    assert_eq!(parsed["password"], "p\"w");
}

#[test]
fn unauthenticated_call_is_refused_without_any_network() {
    let cache = SessionCache::new();
    let r = authorized_root(&cache, 1_700_000_000);
    assert!(matches!(r, Err(ApiError::TokenExpired)));
}

#[test]
fn missing_configuration_is_its_own_error() {
    let mut cache = SessionCache::new();
    cache.set(String::from("tok"), 2_000_000_000);
    let r = authorized_root(&cache, 1_700_000_000);
    assert!(matches!(r, Err(ApiError::ConfigMissing)));
}

#[test]
fn authorized_root_hands_out_token_and_api_root() {
    let (cache, _) = ready_session("http://h:81");
    let (token, api) = authorized_root(&cache, 1_700_000_000).unwrap();
    assert_eq!(token, "tok");
    assert_eq!(api, "http://h:81/api.php/v1");
}

#[test]
fn a_401_clears_the_session_everywhere() {
    let (mut cache, mut store) = ready_session("http://h");
    let outcome = HttpOutcome::Response {
        status: 401,
        body: String::from("denied"),
    };
    let r = classify_response(outcome, &mut cache, &mut store);
    assert!(matches!(r, Err(ApiError::Unauthorized)));
    assert!(!cache.is_valid(0));
    assert!(store.to_text().is_none());
    assert!(cache.config.is_some());
}

#[test]
fn transport_failures_leave_the_session_alone() {
    let (mut cache, mut store) = ready_session("http://h");
    let r = classify_response(
        HttpOutcome::Transport(String::from("connection refused")),
        &mut cache,
        &mut store,
    );
    match r {
        Err(ApiError::TransportError(m)) => assert_eq!(m, "connection refused"),
        other => panic!("unexpected {:?}", other),
    }
    assert!(cache.is_valid(1_700_000_000));
    assert!(store.to_text().is_some());
}

#[test]
fn remote_errors_carry_the_decoded_body() {
    let (mut cache, mut store) = ready_session("http://h");
    let outcome = HttpOutcome::Response {
        status: 500,
        body: String::from("\\u4e2d"),
    };
    match classify_response(outcome, &mut cache, &mut store) {
        Err(ApiError::RemoteError(status, m)) => {
            assert_eq!(status, 500);
            assert_eq!(m, "中");
        },
        other => panic!("unexpected {:?}", other),
    }
    assert!(cache.is_valid(1_700_000_000));
}

#[test]
fn success_hands_the_body_on() {
    let (mut cache, mut store) = ready_session("http://h");
    let outcome = HttpOutcome::Response {
        status: 200,
        body: String::from("{}"),
    };
    assert_eq!(
        classify_response(outcome, &mut cache, &mut store).unwrap(),
        "{}"
    );
}

#[test]
fn login_success_installs_and_persists_the_token() {
    let mut cache = SessionCache::new();
    let mut store = SessionStore::new();
    let now: u64 = 1_700_000_000;
    let r = parse_login_body("{\"token\":\"fresh\"}", now, &mut cache, &mut store);
    assert_eq!(r.unwrap(), true);
    assert!(cache.is_valid(now));
    assert_eq!(cache.token.as_deref(), Some("fresh"));
    assert_eq!(cache.token_expire_time, now + 86400);
    assert_eq!(store.load(now), Some((String::from("fresh"), now + 86400)));
}

#[test]
fn login_without_a_token_field_is_a_format_error() {
    let mut cache = SessionCache::new();
    let mut store = SessionStore::new();
    let r = parse_login_body("{\"status\":\"ok\"}", 0, &mut cache, &mut store);
    assert!(matches!(r, Err(ApiError::FormatError(_))));
    assert!(!cache.is_valid(0));
    assert!(store.to_text().is_none());
}

#[test]
fn user_info_is_read_under_the_profile_field() {
    let body = "{\"profile\":{\"id\":1,\"type\":\"inside\",\"dept\":0,\
                 \"account\":\"a\",\"realname\":\"\\u4e2d\",\"admin\":false}}";
    let u = parse_user_info_body(body).unwrap();
    assert_eq!(u.realname, "中");
    assert!(!u.admin);
}

#[test]
fn user_info_without_profile_is_a_bounded_format_error() {
    let long_body: String = std::iter::repeat('y').take(200).collect();
    match parse_user_info_body(&long_body) {
        Err(ApiError::FormatError(m)) => {
            assert_eq!(m.chars().count(), 103);
            assert!(m.ends_with("..."));
        },
        other => panic!("unexpected {:?}", other),
    }
}

#[test]
fn products_arrive_in_any_of_three_shapes() {
    let product = "{\"id\":9,\"program\":1,\"name\":\"P\",\"code\":\"p\",\"line\":0,\
                   \"type\":\"normal\",\"desc\":\"\",\"acl\":\"open\",\
                   \"createdDate\":\"2024-01-01\"}";
    let envelope = format!(
        "{{\"page\":1,\"total\":1,\"limit\":100,\"products\":[{}]}}",
        product
    );
    let bare = format!("{{\"products\":[{}]}}", product);
    let top = format!("[{}]", product);
    for body in [envelope, bare, top] {
        let ps = parse_products_body(&body).unwrap();
        assert_eq!(ps.len(), 1);
        assert_eq!(ps[0].id, 9);
        assert_eq!(ps[0].name, "P");
    }
}

#[test]
fn product_body_of_no_known_shape_is_a_format_error() {
    assert!(matches!(
        parse_products_body("{\"page\":1}"),
        Err(ApiError::FormatError(_))
    ));
    assert!(matches!(
        parse_products_body("not json"),
        Err(ApiError::FormatError(_))
    ));
}

#[test]
fn product_detail_parses_the_whole_body() {
    let body = "{\"id\":9,\"program\":1,\"name\":\"\\u4ea7\\u54c1\",\"code\":\"p\",\
                \"line\":0,\"type\":\"normal\",\"desc\":\"\",\"acl\":\"open\",\
                \"createdDate\":\"2024-01-01\"}";
    let p = parse_product_detail_body(body).unwrap();
    assert_eq!(p.name, "产品");
}

#[test]
fn bug_detail_carries_its_source_root() {
    let b = parse_bug_detail_body(&bug_json(11), "http://h/api.php/v1").unwrap();
    assert_eq!(b.id, 11);
    assert_eq!(b.base_url.as_deref(), Some("http://h/api.php/v1"));
}

#[test]
fn fan_out_skips_one_failure_and_keeps_the_rest() {
    let (mut cache, mut store) = ready_session("http://h");
    let api = "http://h/api.php/v1";
    let mut acc: Vec<Bug> = Vec::new();
    let bodies = [
        HttpOutcome::Response {
            status: 200,
            body: format!("{{\"page\":1,\"total\":1,\"limit\":20,\"bugs\":[{}]}}", bug_json(1)),
        },
        HttpOutcome::Response {
            status: 500,
            body: String::from("boom"),
        },
        HttpOutcome::Response {
            status: 200,
            body: format!("{{\"page\":1,\"total\":1,\"limit\":20,\"bugs\":[{}]}}", bug_json(3)),
        },
    ];
    for outcome in bodies {
        let r = process_bug_batch_item(outcome, api, &mut acc, &mut cache, &mut store);
        assert!(r.is_ok());
    }
    assert_eq!(acc.len(), 2);
    assert_eq!(acc[0].id, 1);
    assert_eq!(acc[1].id, 3);
    assert_eq!(acc[0].base_url.as_deref(), Some(api));
    assert!(cache.is_valid(1_700_000_000));
}

#[test]
fn fan_out_aborts_on_a_401() {
    let (mut cache, mut store) = ready_session("http://h");
    let mut acc: Vec<Bug> = Vec::new();
    let r = process_bug_batch_item(
        HttpOutcome::Response {
            status: 401,
            body: String::new(),
        },
        "http://h/api.php/v1",
        &mut acc,
        &mut cache,
        &mut store,
    );
    assert!(matches!(r, Err(ApiError::Unauthorized)));
    assert!(acc.is_empty());
    assert!(!cache.is_valid(0));
    assert!(store.to_text().is_none());
}

#[test]
fn fan_out_skips_a_malformed_body() {
    let (mut cache, mut store) = ready_session("http://h");
    let mut acc: Vec<Bug> = Vec::new();
    let r = process_bug_batch_item(
        HttpOutcome::Response {
            status: 200,
            body: String::from("{\"bugs\":[{\"id\":1}]}"),
        },
        "http://h/api.php/v1",
        &mut acc,
        &mut cache,
        &mut store,
    );
    assert!(r.is_ok());
    assert!(acc.is_empty());
}

#[test]
fn image_helpers_build_the_exact_urls() {
    assert_eq!(image_root_url("http://h:81/api.php/v1"), "http://h:81");
    assert_eq!(image_root_url("http://h:81/"), "http://h:81");
    assert_eq!(
        image_url("http://h:81", "data/upload/1.png"),
        "http://h:81/data/upload/1.png"
    );
}

#[test]
fn image_bytes_become_a_typed_data_url() {
    let bytes: Vec<u8> = vec![0x2a];
    assert_eq!(
        image_data_url(&bytes, "shot.PNG"),
        "data:image/png;base64,Kg=="
    );
    assert_eq!(
        image_data_url(&bytes, "photo.JpEg"),
        "data:image/jpeg;base64,Kg=="
    );
    assert_eq!(
        image_data_url(&bytes, "anim.gif"),
        "data:image/gif;base64,Kg=="
    );
    assert_eq!(
        image_data_url(&bytes, "pic.webp"),
        "data:image/webp;base64,Kg=="
    );
    assert_eq!(
        image_data_url(&bytes, "unknown.bin"),
        "data:image/png;base64,Kg=="
    );
}
