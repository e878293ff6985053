use dank_pinentry::assuan::codec::{decode_argument, encode_data, encode_inquire, hex_val};

#[test]
fn decodes_percent_escapes() {
    assert_eq!(decode_argument("a%20b"), "a b");
    assert_eq!(decode_argument("100%25"), "100%");
    assert_eq!(decode_argument("line%0Abreak"), "line\nbreak");
}

#[test]
fn plus_is_literal_in_command_arguments() {
    assert_eq!(decode_argument("a+b"), "a+b");
}

#[test]
fn malformed_escapes_pass_through() {
    assert_eq!(decode_argument("100%"), "100%");
    assert_eq!(decode_argument("%zz"), "%zz");
    assert_eq!(decode_argument("%2"), "%2");
}

#[test]
fn data_escaping_protects_line_framing() {
    assert_eq!(encode_data(b"ab"), b"ab");
    assert_eq!(encode_data(b"a%b"), b"a%25b");
    assert_eq!(encode_data(b"a\nb"), b"a%0Ab");
    assert_eq!(encode_data(b"a\rb"), b"a%0Db");
}

#[test]
fn data_escaping_leaves_spaces_and_plus_alone() {
    assert_eq!(encode_data(b"a b+c"), b"a b+c");
}

#[test]
fn data_escaping_preserves_multibyte_utf8() {
    assert_eq!(encode_data("ü".as_bytes()), vec![0xC3, 0xBC]);
}

#[test]
fn inquire_encoding_uses_plus_for_space() {
    assert_eq!(encode_inquire(b"a b"), b"a+b");
    assert_eq!(encode_inquire(b"a+b"), b"a%2Bb");
    assert_eq!(encode_inquire(b"a%b"), b"a%25b");
    assert_eq!(encode_inquire(b"a\nb"), b"a%0Ab");
}

#[test]
fn round_trips_through_decode() {
    for original in ["hunter2", "with space", "100% sure", "tab\there", "ünïcødé"] {
        let encoded = encode_data(original.as_bytes());
        let as_text = String::from_utf8(encoded).expect("escaped form stays utf-8");
        assert_eq!(decode_argument(&as_text), original);
    }
}

#[test]
fn hex_digits_of_both_cases_are_read() {
    assert_eq!(hex_val(b'0'), Some(0));
    assert_eq!(hex_val(b'9'), Some(9));
    assert_eq!(hex_val(b'a'), Some(10));
    assert_eq!(hex_val(b'F'), Some(15));
    assert_eq!(hex_val(b'g'), None);
}

#[test]
fn lowercase_escapes_decode_too() {
    assert_eq!(decode_argument("%2b%2B"), "++");
}

#[test]
fn escapes_that_decode_to_invalid_utf8_are_replaced() {
    // A lone continuation byte cannot stand in UTF-8.
    assert_eq!(decode_argument("a%80b"), "a\u{FFFD}b");
}

#[test]
fn escaped_multibyte_sequences_are_reassembled() {
    assert_eq!(decode_argument("%C3%BC"), "ü");
}

#[test]
fn inquire_escapes_carriage_return_and_keeps_other_bytes() {
    assert_eq!(encode_inquire(b"\r"), b"%0D");
    assert_eq!(encode_inquire(b"xyz"), b"xyz");
}
