use zentao_client::jsonval::parse_json;
use zentao_client::normalize::{body_preview, extract_items};

#[test]
fn three_shapes_yield_identical_items() {
    let item = "{\"id\":1,\"name\":\"x\"}";
    let envelope = format!(
        "{{\"page\":1,\"total\":1,\"limit\":10,\"items\":[{}]}}",
        item
    );
    let bare = format!("{{\"items\":[{}]}}", item);
    let top = format!("[{}]", item);

    let ve = parse_json(&envelope).unwrap();
    let vb = parse_json(&bare).unwrap();
    let vt = parse_json(&top).unwrap();

    let from_envelope = extract_items(&ve, "items").unwrap();
    let from_bare = extract_items(&vb, "items").unwrap();
    let from_top = extract_items(&vt, "items").unwrap();

    assert_eq!(from_envelope, from_bare);
    assert_eq!(from_bare, from_top);
    assert_eq!(from_top.len(), 1);
}

#[test]
fn keyed_non_array_is_no_shape() {
    let v = parse_json("{\"items\":3}").unwrap();
    assert!(extract_items(&v, "items").is_none());
}

#[test]
fn object_without_key_is_no_shape() {
    let v = parse_json("{\"page\":1,\"total\":1,\"limit\":10}").unwrap();
    assert!(extract_items(&v, "items").is_none());
}

#[test]
fn scalar_is_no_shape() {
    let v = parse_json("\"items\"").unwrap();
    assert!(extract_items(&v, "items").is_none());
}

#[test]
fn empty_top_level_array_is_an_empty_list() {
    let v = parse_json("[]").unwrap();
    assert_eq!(extract_items(&v, "items").unwrap().len(), 0);
}

#[test]
fn preview_keeps_short_bodies_whole() {
    assert_eq!(body_preview("short", 100), "short");
}

#[test]
fn preview_cuts_long_bodies_with_an_ellipsis() {
    let body: String = std::iter::repeat('x').take(150).collect();
    let p = body_preview(&body, 100);
    assert_eq!(p.chars().count(), 103);
    assert!(p.ends_with("..."));
    assert!(p.starts_with("xxx"));
}

#[test]
fn preview_counts_characters_not_bytes() {
    let body: String = std::iter::repeat('中').take(101).collect();
    let p = body_preview(&body, 100);
    assert_eq!(p.chars().count(), 103);
    assert!(p.ends_with("..."));
}
