//! Terminal input helpers that need no system call.
use vstd::prelude::*;

verus! {

/// Byte length of a UTF-8 sequence from its leading byte; a continuation or
/// invalid byte counts as one, so input never stalls on bytes that will not
/// arrive.
pub open spec fn spec_utf8_len(lead: u8) -> usize {
    if lead < 0x80 {
        1
    } else if lead / 32 == 6 {
        2
    } else if lead / 16 == 14 {
        3
    } else if lead / 8 == 30 {
        4
    } else {
        1
    }
}

/// Byte length of a UTF-8 sequence from its leading byte, so a multi-byte
/// keystroke renders as one mask character rather than several.
pub fn utf8_len(lead: u8) -> (r: usize)
    ensures
        r == spec_utf8_len(lead),
        1 <= r <= 4,
{
    if lead < 0x80 {
        1
    } else if lead >> 5u8 == 0b110 {
        assert(lead >> 5u8 == lead / 32) by (bit_vector);
        2
    } else if lead >> 4u8 == 0b1110 {
        assert(lead >> 5u8 == lead / 32) by (bit_vector);
        assert(lead >> 4u8 == lead / 16) by (bit_vector);
        3
    } else if lead >> 3u8 == 0b11110 {
        assert(lead >> 5u8 == lead / 32) by (bit_vector);
        assert(lead >> 4u8 == lead / 16) by (bit_vector);
        assert(lead >> 3u8 == lead / 8) by (bit_vector);
        4
    } else {
        assert(lead >> 5u8 == lead / 32) by (bit_vector);
        assert(lead >> 4u8 == lead / 16) by (bit_vector);
        assert(lead >> 3u8 == lead / 8) by (bit_vector);
        1
    }
}

/// The width that `utf8_len` gives a lead byte is the width of the UTF-8
/// sequence it leads: every encoded character is counted as one keystroke.
pub proof fn law_utf8_len_matches_encoding(c: char)
    ensures
        spec_utf8_len(vstd::utf8::encode_scalar(c as u32)[0]) == vstd::utf8::encode_scalar(
            c as u32,
        ).len(),
{
    let v = c as u32;
    vstd::utf8::char_is_scalar(c);
    if vstd::utf8::has_width_1_encoding(v) {
        let b = vstd::utf8::leading_byte_width_1(v);
        assert(b < 0x80) by (bit_vector)
            requires
                v <= 0x7F,
                b == (v & 0x7F) as u8,
        ;
    } else if vstd::utf8::has_width_2_encoding(v) {
        let b = vstd::utf8::leading_byte_width_2(v);
        assert(b / 32 == 6 && b >= 0x80) by (bit_vector)
            requires
                0x80 <= v <= 0x7FF,
                b == 0xC0 | (((v >> 6) & 0x1F) as u8),
        ;
    } else if vstd::utf8::has_width_3_encoding(v) {
        let b = vstd::utf8::leading_byte_width_3(v);
        assert(b / 16 == 14 && b / 32 != 6 && b >= 0x80) by (bit_vector)
            requires
                0x800 <= v <= 0xFFFF,
                b == 0xE0 | (((v >> 12) & 0x0F) as u8),
        ;
    } else {
        let b = vstd::utf8::leading_byte_width_4(v);
        assert(b / 8 == 30 && b / 16 != 14 && b / 32 != 6 && b >= 0x80) by (bit_vector)
            requires
                0x10000 <= v <= 0x10FFFF,
                b == 0xF0 | (((v >> 18) & 0x7) as u8),
        ;
    }
}

} // verus!
