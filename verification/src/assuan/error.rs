//! gpg-error codes for `ERR <code> <description>`.
//!
//! A value packs `(source << 24) | code`. Values come from libgpg-error's
//! `err-sources.h.in` and `err-codes.h.in`.
use vstd::prelude::*;
use vstd::utf8::encode_utf8;
use crate::text::{decimal, push_decimal, push_str};

verus! {

pub const SOURCE_PINENTRY: u32 = 5;

pub const GENERAL: u32 = 1;

pub const BAD_PASSPHRASE: u32 = 11;

pub const TIMEOUT: u32 = 62;

pub const CANCELED: u32 = 99;

pub const NOT_CONFIRMED: u32 = 114;

pub const LOCALE_PROBLEM: u32 = 166;

pub const FULLY_CANCELED: u32 = 198;

pub const ASS_GENERAL: u32 = 257;

pub const ASS_INV_VALUE: u32 = 261;

pub const ASS_UNKNOWN_CMD: u32 = 275;

pub const ASS_NO_INPUT: u32 = 278;

pub const ASS_PARAMETER: u32 = 280;

/// The error value with the pinentry source in the top byte.
pub open spec fn spec_gpg_error(code: u32) -> u32 {
    (SOURCE_PINENTRY << 24u32) | code
}

pub fn gpg_error(code: u32) -> (r: u32)
    ensures
        r == spec_gpg_error(code),
{
    (SOURCE_PINENTRY << 24u32) | code
}

/// For every code that fits below the source byte, the value is the source
/// times 2^24 plus the code, and the top byte names the pinentry.
pub proof fn law_gpg_error_packs_source(code: u32)
    requires
        code < 0x100_0000,
    ensures
        spec_gpg_error(code) == 5 * 0x100_0000 + code,
        spec_gpg_error(code) >> 24u32 == SOURCE_PINENTRY,
        spec_gpg_error(code) & 0xff_ffff == code,
{
    assert(((5u32 << 24u32) | code) == 5 * 0x100_0000 + code) by (bit_vector)
        requires
            code < 0x100_0000,
    ;
    assert(((5u32 << 24u32) | code) >> 24u32 == 5) by (bit_vector)
        requires
            code < 0x100_0000,
    ;
    assert(((5u32 << 24u32) | code) & 0xff_ffff == code) by (bit_vector)
        requires
            code < 0x100_0000,
    ;
}

#[derive(Debug, Clone, Copy, PartialEq, Eq)]
pub struct AssuanError {
    pub code: u32,
    pub description: &'static str,
}

/// The `ERR` line that reports `e`, with its line feed.
pub open spec fn err_line(e: AssuanError) -> Seq<u8> {
    seq![69u8, 82, 82, 32] + decimal(spec_gpg_error(e.code) as nat) + seq![32u8] + encode_utf8(
        e.description@,
    ) + seq![10u8]
}

impl AssuanError {
    pub fn new(code: u32, description: &'static str) -> (r: Self)
        ensures
            r.code == code,
            r.description == description,
    {
        Self { code, description }
    }

    pub fn wire_value(&self) -> (r: u32)
        ensures
            r == spec_gpg_error(self.code),
    {
        gpg_error(self.code)
    }

    pub fn canceled() -> (r: Self)
        ensures
            r.code == CANCELED,
            r.description@ == "Operation cancelled"@,
    {
        Self::new(CANCELED, "Operation cancelled")
    }

    pub fn not_confirmed() -> (r: Self)
        ensures
            r.code == NOT_CONFIRMED,
            r.description@ == "Not confirmed"@,
    {
        Self::new(NOT_CONFIRMED, "Not confirmed")
    }

    /// gpg-agent stops retrying on this, unlike [`Self::canceled`].
    pub fn fully_canceled() -> (r: Self)
        ensures
            r.code == FULLY_CANCELED,
            r.description@ == "Operation fully cancelled"@,
    {
        Self::new(FULLY_CANCELED, "Operation fully cancelled")
    }

    pub fn timeout() -> (r: Self)
        ensures
            r.code == TIMEOUT,
            r.description@ == "Timeout"@,
    {
        Self::new(TIMEOUT, "Timeout")
    }

    pub fn unknown_command() -> (r: Self)
        ensures
            r.code == ASS_UNKNOWN_CMD,
            r.description@ == "Unknown IPC command"@,
    {
        Self::new(ASS_UNKNOWN_CMD, "Unknown IPC command")
    }

    pub fn parameter() -> (r: Self)
        ensures
            r.code == ASS_PARAMETER,
            r.description@ == "IPC parameter error"@,
    {
        Self::new(ASS_PARAMETER, "IPC parameter error")
    }

    pub fn no_input() -> (r: Self)
        ensures
            r.code == ASS_NO_INPUT,
            r.description@ == "No input source for IPC"@,
    {
        Self::new(ASS_NO_INPUT, "No input source for IPC")
    }

    pub fn general(description: &'static str) -> (r: Self)
        ensures
            r.code == GENERAL,
            r.description == description,
    {
        Self::new(GENERAL, description)
    }

    /// `<wire value> <description>`, as the error is shown to a person.
    pub fn to_text(&self) -> (r: String)
        ensures
            r@ == vstd::utf8::decode_utf8(
                decimal(spec_gpg_error(self.code) as nat) + seq![32u8] + encode_utf8(
                    self.description@,
                ),
            ),
    {
        let mut out: Vec<u8> = Vec::new();
        push_decimal(&mut out, self.wire_value() as u64);
        out.push(32);
        push_str(&mut out, self.description);
        proof {
            assert(out@ =~= decimal(spec_gpg_error(self.code) as nat) + seq![32u8] + encode_utf8(
                self.description@,
            ));
            lemma_decimal_is_ascii(spec_gpg_error(self.code) as nat);
            vstd::utf8::encode_utf8_valid_utf8(self.description@);
            lemma_ascii_valid_utf8(decimal(spec_gpg_error(self.code) as nat) + seq![32u8]);
            vstd::utf8::valid_utf8_concat(
                decimal(spec_gpg_error(self.code) as nat) + seq![32u8],
                encode_utf8(self.description@),
            );
        }
        crate::assuan::codec::string_from_utf8_lossy(&out)
    }
}

/// Appends the `ERR` line for `e` to `out`.
pub fn write_err(out: &mut Vec<u8>, e: AssuanError)
    ensures
        final(out)@ == old(out)@ + err_line(e),
{
    let ghost start = out@;
    out.push(69);
    out.push(82);
    out.push(82);
    out.push(32);
    push_decimal(out, e.wire_value() as u64);
    out.push(32);
    push_str(out, e.description);
    out.push(10);
    proof {
        assert(out@ =~= start + err_line(e));
    }
}

pub open spec fn all_ascii(b: Seq<u8>) -> bool {
    forall|i: int| 0 <= i < b.len() ==> #[trigger] b[i] < 128
}

pub proof fn lemma_decimal_is_ascii(n: nat)
    ensures
        all_ascii(decimal(n) + seq![32u8]),
        all_ascii(decimal(n)),
    decreases n,
{
    if n >= 10 {
        lemma_decimal_is_ascii(n / 10);
    }
    let d = decimal(n);
    assert forall|i: int| 0 <= i < d.len() implies #[trigger] d[i] < 128 by {
        if n >= 10 {
            let p = decimal(n / 10);
            if i < p.len() {
                assert(d[i] == p[i]);
                assert((p + seq![32u8])[i] == p[i]);
            }
        }
    }
    let e = d + seq![32u8];
    assert forall|i: int| 0 <= i < e.len() implies #[trigger] e[i] < 128 by {
        if i < d.len() {
            assert(e[i] == d[i]);
        }
    }
}

/// Bytes below 128 are valid UTF-8 on their own.
pub proof fn lemma_ascii_valid_utf8(b: Seq<u8>)
    requires
        all_ascii(b),
    ensures
        vstd::utf8::valid_utf8(b),
    decreases b.len(),
{
    let ghost chars = b.map_values(|x: u8| x as char);
    assert(b =~= encode_utf8(chars)) by {
        lemma_ascii_encode(b);
    }
    vstd::utf8::encode_utf8_valid_utf8(chars);
}

proof fn lemma_ascii_encode(b: Seq<u8>)
    requires
        all_ascii(b),
    ensures
        b == encode_utf8(b.map_values(|x: u8| x as char)),
    decreases b.len(),
{
    let chars = b.map_values(|x: u8| x as char);
    if b.len() > 0 {
        let rest = b.drop_first();
        assert(all_ascii(rest)) by {
            assert forall|i: int| 0 <= i < rest.len() implies #[trigger] rest[i] < 128 by {
                assert(rest[i] == b[i + 1]);
            }
        }
        lemma_ascii_encode(rest);
        assert(chars.drop_first() =~= rest.map_values(|x: u8| x as char));
        let x = b[0];
        assert(x < 128);
        assert(chars[0] == x as char);
        assert((x as char) as u32 == x as u32);
        assert((x as u32) & 0x7F == x as u32) by (bit_vector)
            requires
                x < 128,
        ;
        assert(((x as u32) & 0x7F) as u8 == x) by (bit_vector)
            requires
                x < 128,
        ;
        assert(vstd::utf8::encode_scalar(chars[0] as u32) =~= seq![x]);
        assert(b =~= seq![b[0]] + rest);
    }
}

} // verus!
