use zentao_client::unicode::decode_unicode_escapes;

#[test]
fn decodes_cjk_escapes_to_literal_characters() {
    assert_eq!(decode_unicode_escapes("\\u4e2d\\u6587"), "中文");
}

#[test]
fn decodes_escape_amid_plain_text() {
    assert_eq!(decode_unicode_escapes("a\\u0041b"), "aAb");
}

#[test]
fn leaves_malformed_hex_untouched() {
    assert_eq!(decode_unicode_escapes("\\uzzzz"), "\\uzzzz");
}

#[test]
fn leaves_surrogate_code_points_untouched() {
    assert_eq!(decode_unicode_escapes("x\\ud800y"), "x\\ud800y");
}

#[test]
fn leaves_short_escape_at_end_untouched() {
    assert_eq!(decode_unicode_escapes("tail\\u12"), "tail\\u12");
}

#[test]
fn leaves_plain_backslashes_untouched() {
    assert_eq!(decode_unicode_escapes("a\\nb\\"), "a\\nb\\");
}

#[test]
fn empty_input_stays_empty() {
    assert_eq!(decode_unicode_escapes(""), "");
}

#[test]
fn decodes_adjacent_escapes_without_overlap() {
    // The four hex digits of the first escape are consumed before scanning
    // resumes, so the text after them is read afresh.
    assert_eq!(decode_unicode_escapes("\\u0041\\u0042"), "AB");
}

#[test]
fn upper_and_lower_hex_digits_both_decode() {
    assert_eq!(decode_unicode_escapes("\\u00E9 \\u00e9"), "é é");
}
