use dank_pinentry::backend::term::utf8_len;

#[test]
fn utf8_len_covers_all_lead_bytes() {
    assert_eq!(utf8_len(b'a'), 1);
    assert_eq!(utf8_len(0xC3), 2);
    assert_eq!(utf8_len(0xE2), 3);
    assert_eq!(utf8_len(0xF0), 4);
    assert_eq!(utf8_len(0x80), 1);
}

#[test]
fn utf8_len_matches_encoded_lengths() {
    for c in ['a', 'ü', '€', '😀'] {
        let mut buf = [0u8; 4];
        let s = c.encode_utf8(&mut buf);
        assert_eq!(utf8_len(s.as_bytes()[0]), s.len());
    }
    assert_eq!(utf8_len(0xFF), 1);
}
