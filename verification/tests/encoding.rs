use mail_server::base64::base64_encode;

#[test]
fn base64_of_empty_text_is_empty() {
    assert_eq!(base64_encode(""), "");
}

#[test]
fn base64_pads_one_trailing_byte_with_two_equals() {
    assert_eq!(base64_encode("f"), "Zg==");
}

#[test]
fn base64_pads_two_trailing_bytes_with_one_equals() {
    assert_eq!(base64_encode("fo"), "Zm8=");
}

#[test]
fn base64_of_whole_groups_has_no_padding() {
    assert_eq!(base64_encode("foo"), "Zm9v");
    assert_eq!(base64_encode("foobar"), "Zm9vYmFy");
}

#[test]
fn base64_uses_plus_and_slash() {
    // the UTF-8 bytes of U+03FF (cf bf) give the digits 62 and 63
    assert_eq!(base64_encode("\u{3ff}\u{3ff}"), "z7/Pvw==");
    assert_eq!(base64_encode(">>>"), "Pj4+");
}

#[test]
fn base64_encodes_utf8_bytes_of_non_ascii_text() {
    assert_eq!(base64_encode("é"), "w6k=");
    assert_eq!(base64_encode("hello world"), "aGVsbG8gd29ybGQ=");
}

#[test]
fn base64_length_is_four_per_started_group() {
    for n in 0..12usize {
        let text = "a".repeat(n);
        assert_eq!(base64_encode(&text).len(), 4 * ((n + 2) / 3));
    }
}
