//! Percent-escaping for the Assuan wire format.
//!
//! Three distinct rules, and mixing them up corrupts data: command arguments
//! decode `%XX` only (`+` is literal), `D` lines escape `%`/CR/LF, and
//! `INQUIRE` payloads additionally use `+` for space.
use vstd::prelude::*;
use vstd::utf8::{decode_utf8, encode_utf8, valid_utf8};

verus! {

pub open spec fn is_hex(b: u8) -> bool {
    (48 <= b && b <= 57) || (97 <= b && b <= 102) || (65 <= b && b <= 70)
}

/// The value of a hexadecimal digit.
pub open spec fn hex_digit(b: u8) -> int {
    if 48 <= b && b <= 57 {
        b - 48
    } else if 97 <= b && b <= 102 {
        b - 97 + 10
    } else {
        b - 65 + 10
    }
}

/// Decodes `%XX` escapes; an incomplete or non-hex escape stays literal.
pub open spec fn percent_decode(b: Seq<u8>) -> Seq<u8>
    decreases b.len(),
{
    if b.len() == 0 {
        seq![]
    } else if b[0] == 37 && b.len() > 2 && is_hex(b[1]) && is_hex(b[2]) {
        seq![(hex_digit(b[1]) * 16 + hex_digit(b[2])) as u8] + percent_decode(b.skip(3))
    } else {
        seq![b[0]] + percent_decode(b.skip(1))
    }
}

/// How one byte appears on a `D` line.
pub open spec fn data_escape(b: u8) -> Seq<u8> {
    if b == 37 {
        seq![37u8, 50, 53]
    } else if b == 13 {
        seq![37u8, 48, 68]
    } else if b == 10 {
        seq![37u8, 48, 65]
    } else {
        seq![b]
    }
}

/// The `D`-line form of `b`.
pub open spec fn escape_data(b: Seq<u8>) -> Seq<u8>
    decreases b.len(),
{
    if b.len() == 0 {
        seq![]
    } else {
        data_escape(b[0]) + escape_data(b.skip(1))
    }
}

/// The uppercase hexadecimal digit for `n < 16`.
pub open spec fn upper_hex(n: int) -> u8 {
    if n < 10 {
        (48 + n) as u8
    } else {
        (55 + n) as u8
    }
}

/// How one byte appears in an `INQUIRE` payload.
pub open spec fn inquire_escape(b: u8) -> Seq<u8> {
    if b < 32 || b == 43 || b == 37 {
        seq![37u8, upper_hex((b / 16) as int), upper_hex((b % 16) as int)]
    } else if b == 32 {
        seq![43u8]
    } else {
        seq![b]
    }
}

/// The `INQUIRE` form of `b`.
pub open spec fn escape_inquire(b: Seq<u8>) -> Seq<u8>
    decreases b.len(),
{
    if b.len() == 0 {
        seq![]
    } else {
        inquire_escape(b[0]) + escape_inquire(b.skip(1))
    }
}

/// What `String::from_utf8_lossy` makes of `bytes`.
pub uninterp spec fn utf8_lossy(bytes: Seq<u8>) -> Seq<char>;

/// Calls `String::from_utf8_lossy`. Trusted to give valid UTF-8 back decoded
/// exactly; what it puts in place of invalid sequences is only named.
#[verifier::external_body]
pub(crate) fn string_from_utf8_lossy(bytes: &[u8]) -> (s: String)
    ensures
        s@ == utf8_lossy(bytes@),
        valid_utf8(bytes@) ==> s@ == decode_utf8(bytes@),
{
    String::from_utf8_lossy(bytes).into_owned()
}

/// The value of a hexadecimal digit, if `b` is one.
pub fn hex_val(b: u8) -> (r: Option<u8>)
    ensures
        r == (if is_hex(b) {
            Some(hex_digit(b) as u8)
        } else {
            None
        }),
{
    if 48 <= b && b <= 57 {
        Some(b - 48)
    } else if 97 <= b && b <= 102 {
        Some(b - 97 + 10)
    } else if 65 <= b && b <= 70 {
        Some(b - 65 + 10)
    } else {
        None
    }
}

/// Decoding consumes a prefix and then goes on with the rest.
proof fn lemma_decode_step(b: Seq<u8>, i: int)
    requires
        0 <= i < b.len(),
    ensures
        b[i] == 37 && b.len() - i > 2 && is_hex(b[i + 1]) && is_hex(b[i + 2]) ==> percent_decode(
            b.skip(i),
        ) == seq![(hex_digit(b[i + 1]) * 16 + hex_digit(b[i + 2])) as u8] + percent_decode(
            b.skip(i + 3),
        ),
        !(b[i] == 37 && b.len() - i > 2 && is_hex(b[i + 1]) && is_hex(b[i + 2]))
            ==> percent_decode(b.skip(i)) == seq![b[i]] + percent_decode(b.skip(i + 1)),
{
    let s = b.skip(i);
    assert(s[0] == b[i]);
    if s.len() > 2 {
        assert(s[1] == b[i + 1]);
        assert(s[2] == b[i + 2]);
        assert(s.skip(3) =~= b.skip(i + 3));
    }
    assert(s.skip(1) =~= b.skip(i + 1));
}

/// Invalid escapes pass through literally, as libassuan's `strcpy_escaped` does.
pub fn decode_argument(input: &str) -> (r: String)
    ensures
        r@ == utf8_lossy(percent_decode(encode_utf8(input@))),
        valid_utf8(percent_decode(encode_utf8(input@))) ==> r@ == decode_utf8(
            percent_decode(encode_utf8(input@)),
        ),
{
    let bytes = input.as_bytes();
    let ghost all = bytes@;
    let mut out: Vec<u8> = Vec::new();
    let mut i: usize = 0;
    let n = bytes.len();
    proof {
        assert(all.skip(0) =~= all);
    }
    while i < n
        invariant
            n == bytes@.len(),
            all == bytes@,
            i <= n,
            out@ + percent_decode(all.skip(i as int)) == percent_decode(all),
        decreases n - i,
    {
        proof {
            lemma_decode_step(all, i as int);
        }
        if bytes[i] == 37 && n - i > 2 {
            match (hex_val(bytes[i + 1]), hex_val(bytes[i + 2])) {
                (Some(hi), Some(lo)) => {
                    let ghost before = out@;
                    out.push(hi * 16 + lo);
                    proof {
                        assert(before + percent_decode(all.skip(i as int)) == out@
                            + percent_decode(all.skip(i + 3)));
                    }
                    i = i + 3;
                    continue ;
                },
                _ => {},
            }
        }
        let ghost before = out@;
        out.push(bytes[i]);
        proof {
            assert(before + percent_decode(all.skip(i as int)) == out@ + percent_decode(
                all.skip(i + 1),
            ));
        }
        i = i + 1;
    }
    proof {
        assert(all.skip(n as int) =~= Seq::<u8>::empty());
        assert(out@ =~= percent_decode(all));
    }
    string_from_utf8_lossy(&out)
}

/// Escaping distributes over concatenation.
pub proof fn lemma_escape_data_concat(a: Seq<u8>, b: Seq<u8>)
    ensures
        escape_data(a + b) == escape_data(a) + escape_data(b),
    decreases a.len(),
{
    if a.len() == 0 {
        assert(a + b =~= b);
    } else {
        lemma_escape_data_concat(a.skip(1), b);
        assert((a + b).skip(1) =~= a.skip(1) + b);
        assert((a + b)[0] == a[0]);
    }
}

pub proof fn lemma_escape_inquire_concat(a: Seq<u8>, b: Seq<u8>)
    ensures
        escape_inquire(a + b) == escape_inquire(a) + escape_inquire(b),
    decreases a.len(),
{
    if a.len() == 0 {
        assert(a + b =~= b);
    } else {
        lemma_escape_inquire_concat(a.skip(1), b);
        assert((a + b).skip(1) =~= a.skip(1) + b);
        assert((a + b)[0] == a[0]);
    }
}

proof fn lemma_escape_single(b: u8)
    ensures
        escape_data(seq![b]) == data_escape(b),
        escape_inquire(seq![b]) == inquire_escape(b),
{
    let one = seq![b];
    assert(one[0] == b);
    assert(one.skip(1) =~= Seq::<u8>::empty());
    assert(escape_data(one.skip(1)) == Seq::<u8>::empty());
    assert(escape_inquire(one.skip(1)) == Seq::<u8>::empty());
    assert(data_escape(b) + Seq::<u8>::empty() =~= data_escape(b));
    assert(inquire_escape(b) + Seq::<u8>::empty() =~= inquire_escape(b));
}

/// Returns bytes, not a `String`: building one by pushing `b as char` would
/// reinterpret each byte as a codepoint and mangle non-ASCII passphrases.
pub fn encode_data(input: &[u8]) -> (r: Vec<u8>)
    ensures
        r@ == escape_data(input@),
{
    let mut out: Vec<u8> = Vec::new();
    let mut i: usize = 0;
    while i < input.len()
        invariant
            i <= input@.len(),
            out@ == escape_data(input@.take(i as int)),
        decreases input@.len() - i,
    {
        let b = input[i];
        if b == 37 {
            out.push(37);
            out.push(50);
            out.push(53);
        } else if b == 13 {
            out.push(37);
            out.push(48);
            out.push(68);
        } else if b == 10 {
            out.push(37);
            out.push(48);
            out.push(65);
        } else {
            out.push(b);
        }
        proof {
            assert(input@.take(i + 1) =~= input@.take(i as int) + seq![b]);
            lemma_escape_data_concat(input@.take(i as int), seq![b]);
            lemma_escape_single(b);
            assert(out@ =~= escape_data(input@.take(i as int)) + data_escape(b));
        }
        i = i + 1;
    }
    proof {
        assert(input@.take(input@.len() as int) =~= input@);
    }
    out
}

fn hex_digit_upper(n: u8) -> (r: u8)
    requires
        n < 16,
    ensures
        r == upper_hex(n as int),
{
    if n < 10 {
        48 + n
    } else {
        55 + n
    }
}

/// Space is encoded as `+`, so `+` itself must be escaped.
pub fn encode_inquire(input: &[u8]) -> (r: Vec<u8>)
    ensures
        r@ == escape_inquire(input@),
{
    let mut out: Vec<u8> = Vec::new();
    let mut i: usize = 0;
    while i < input.len()
        invariant
            i <= input@.len(),
            out@ == escape_inquire(input@.take(i as int)),
        decreases input@.len() - i,
    {
        let b = input[i];
        if b < 32 || b == 43 || b == 37 {
            out.push(37);
            out.push(hex_digit_upper(b / 16));
            out.push(hex_digit_upper(b % 16));
        } else if b == 32 {
            out.push(43);
        } else {
            out.push(b);
        }
        proof {
            assert(input@.take(i + 1) =~= input@.take(i as int) + seq![b]);
            lemma_escape_inquire_concat(input@.take(i as int), seq![b]);
            lemma_escape_single(b);
            assert(out@ =~= escape_inquire(input@.take(i as int)) + inquire_escape(b));
        }
        i = i + 1;
    }
    proof {
        assert(input@.take(input@.len() as int) =~= input@);
    }
    out
}

/// Decoding undoes `D`-line escaping: the bytes that gpg-agent reassembles
/// from a data line are exactly the bytes that were escaped.
pub proof fn law_decode_undoes_data_escaping(b: Seq<u8>)
    ensures
        percent_decode(escape_data(b)) == b,
    decreases b.len(),
{
    if b.len() > 0 {
        law_decode_undoes_data_escaping(b.skip(1));
        let e = escape_data(b);
        let rest = escape_data(b.skip(1));
        let x = b[0];
        if x == 37 || x == 13 || x == 10 {
            assert(e.skip(3) =~= rest);
        } else {
            assert(e.skip(1) =~= rest);
        }
        assert(b =~= seq![x] + b.skip(1));
    }
}

/// How one character of text appears on a `D` line.
pub open spec fn text_escape(c: char) -> Seq<char> {
    if c == '%' {
        seq!['%', '2', '5']
    } else if c == '\r' {
        seq!['%', '0', 'D']
    } else if c == '\n' {
        seq!['%', '0', 'A']
    } else {
        seq![c]
    }
}

/// The `D`-line form of a text, character by character.
pub open spec fn escape_text(s: Seq<char>) -> Seq<char>
    decreases s.len(),
{
    if s.len() == 0 {
        seq![]
    } else {
        text_escape(s[0]) + escape_text(s.drop_first())
    }
}

/// UTF-8 encoding distributes over concatenation.
pub proof fn lemma_encode_utf8_concat(a: Seq<char>, b: Seq<char>)
    ensures
        encode_utf8(a + b) == encode_utf8(a) + encode_utf8(b),
    decreases a.len(),
{
    if a.len() == 0 {
        assert(a + b =~= b);
        assert(encode_utf8(a) =~= Seq::<u8>::empty());
        assert(encode_utf8(a) + encode_utf8(b) =~= encode_utf8(b));
    } else {
        lemma_encode_utf8_concat(a.drop_first(), b);
        assert((a + b).drop_first() =~= a.drop_first() + b);
        assert((a + b)[0] == a[0]);
        assert(encode_utf8(a + b) =~= encode_utf8(a) + encode_utf8(b));
    }
}

/// A single character encodes as its scalar's bytes.
proof fn lemma_encode_utf8_one(c: char)
    ensures
        encode_utf8(seq![c]) == vstd::utf8::encode_scalar(c as u32),
{
    assert(seq![c].drop_first() =~= Seq::<char>::empty());
    assert(encode_utf8(Seq::<char>::empty()) =~= Seq::<u8>::empty());
    assert(encode_utf8(seq![c]) =~= vstd::utf8::encode_scalar(c as u32));
}

/// An ASCII character encodes as its own code.
proof fn lemma_encode_ascii(c: char)
    requires
        (c as u32) < 128,
    ensures
        encode_utf8(seq![c]) == seq![(c as u32) as u8],
{
    lemma_encode_utf8_one(c);
    let v = c as u32;
    assert((v & 0x7F) as u8 == v as u8) by (bit_vector)
        requires
            v < 128,
    ;
}

/// Bytes that hold no `%`, CR or LF are their own `D`-line form.
proof fn lemma_escape_data_identity(b: Seq<u8>)
    requires
        forall|i: int| 0 <= i < b.len() ==> #[trigger] b[i] != 37 && b[i] != 13 && b[i] != 10,
    ensures
        escape_data(b) == b,
    decreases b.len(),
{
    if b.len() > 0 {
        assert(forall|i: int| 0 <= i < b.skip(1).len() ==> #[trigger] b.skip(1)[i] == b[i + 1]);
        lemma_escape_data_identity(b.skip(1));
        assert(b =~= seq![b[0]] + b.skip(1));
    }
}

/// Escaping a character's bytes gives the bytes of the escaped character.
proof fn lemma_escape_char(c: char)
    ensures
        escape_data(vstd::utf8::encode_scalar(c as u32)) == encode_utf8(text_escape(c)),
{
    let v = c as u32;
    vstd::utf8::char_is_scalar(c);
    lemma_encode_utf8_one(c);
    if v < 128 {
        lemma_encode_ascii(c);
        lemma_escape_single(v as u8);
        if c == '%' || c == '\r' || c == '\n' {
            let t = text_escape(c);
            assert(t =~= seq![t[0]] + seq![t[1]] + seq![t[2]]);
            lemma_encode_ascii(t[0]);
            lemma_encode_ascii(t[1]);
            lemma_encode_ascii(t[2]);
            lemma_encode_utf8_concat(seq![t[0]], seq![t[1]]);
            lemma_encode_utf8_concat(seq![t[0]] + seq![t[1]], seq![t[2]]);
            assert(encode_utf8(t) =~= data_escape(v as u8));
        }
    } else {
        let e = vstd::utf8::encode_scalar(v);
        assert forall|i: int| 0 <= i < e.len() implies #[trigger] e[i] != 37 && e[i] != 13 && e[i]
            != 10 by {
            if vstd::utf8::has_width_2_encoding(v) {
                let b0 = vstd::utf8::leading_byte_width_2(v);
                let b1 = vstd::utf8::last_continuation_byte(v);
                assert(b0 >= 128 && b1 >= 128) by (bit_vector)
                    requires
                        b0 == 0xC0 | ((v >> 6) & 0x1F) as u8,
                        b1 == 0x80 | (v & 0x3F) as u8,
                ;
            } else if vstd::utf8::has_width_3_encoding(v) {
                let b0 = vstd::utf8::leading_byte_width_3(v);
                let b1 = vstd::utf8::second_last_continuation_byte(v);
                let b2 = vstd::utf8::last_continuation_byte(v);
                assert(b0 >= 128 && b1 >= 128 && b2 >= 128) by (bit_vector)
                    requires
                        b0 == 0xE0 | ((v >> 12) & 0x0F) as u8,
                        b1 == 0x80 | ((v >> 6) & 0x3F) as u8,
                        b2 == 0x80 | (v & 0x3F) as u8,
                ;
            } else {
                let b0 = vstd::utf8::leading_byte_width_4(v);
                let b1 = vstd::utf8::third_last_continuation_byte(v);
                let b2 = vstd::utf8::second_last_continuation_byte(v);
                let b3 = vstd::utf8::last_continuation_byte(v);
                assert(b0 >= 128 && b1 >= 128 && b2 >= 128 && b3 >= 128) by (bit_vector)
                    requires
                        b0 == 0xF0 | ((v >> 18) & 0x7) as u8,
                        b1 == 0x80 | ((v >> 12) & 0x3F) as u8,
                        b2 == 0x80 | ((v >> 6) & 0x3F) as u8,
                        b3 == 0x80 | (v & 0x3F) as u8,
                ;
            }
        }
        lemma_escape_data_identity(e);
    }
}

/// Escaping the bytes of a text is escaping the text, then encoding it.
pub proof fn lemma_escape_text(s: Seq<char>)
    ensures
        escape_data(encode_utf8(s)) == encode_utf8(escape_text(s)),
    decreases s.len(),
{
    if s.len() == 0 {
        assert(encode_utf8(s) =~= Seq::<u8>::empty());
        assert(escape_data(encode_utf8(s)) =~= Seq::<u8>::empty());
        assert(encode_utf8(escape_text(s)) =~= Seq::<u8>::empty());
    } else {
        lemma_escape_text(s.drop_first());
        lemma_escape_data_concat(
            vstd::utf8::encode_scalar(s[0] as u32),
            encode_utf8(s.drop_first()),
        );
        lemma_escape_char(s[0]);
        lemma_encode_utf8_concat(text_escape(s[0]), escape_text(s.drop_first()));
    }
}

/// A text sent on a `D` line reads back as the same text through argument
/// decoding: the escaped bytes are the UTF-8 of the escaped text, and
/// decoding them gives back the text's bytes, which are valid UTF-8 of
/// exactly that text.
pub proof fn law_escaped_text_reads_back(s: Seq<char>)
    ensures
        escape_data(encode_utf8(s)) == encode_utf8(escape_text(s)),
        percent_decode(encode_utf8(escape_text(s))) == encode_utf8(s),
        valid_utf8(percent_decode(encode_utf8(escape_text(s)))),
        decode_utf8(percent_decode(encode_utf8(escape_text(s)))) == s,
{
    lemma_escape_text(s);
    law_decode_undoes_data_escaping(encode_utf8(s));
    vstd::utf8::encode_utf8_valid_utf8(s);
    vstd::utf8::encode_utf8_decode_utf8(s);
}

/// `D`-line escaping never emits a line break, so the data cannot end the
/// line early or forge a following protocol line.
pub proof fn law_escaped_data_has_no_line_break(b: Seq<u8>)
    ensures
        forall|i: int| 0 <= i < escape_data(b).len() ==> #[trigger] escape_data(b)[i] != 10
            && escape_data(b)[i] != 13,
    decreases b.len(),
{
    if b.len() > 0 {
        law_escaped_data_has_no_line_break(b.skip(1));
        let e = escape_data(b);
        let d = data_escape(b[0]);
        let rest = escape_data(b.skip(1));
        assert forall|i: int| 0 <= i < e.len() implies #[trigger] e[i] != 10 && e[i] != 13 by {
            if i < d.len() {
                assert(e[i] == d[i]);
            } else {
                assert(e[i] == rest[i - d.len()]);
            }
        }
    }
}

/// An `INQUIRE` payload holds no control byte and no space, so it stays a
/// single space-delimited token on one line.
pub proof fn law_escaped_inquire_is_one_token(b: Seq<u8>)
    ensures
        forall|i: int| 0 <= i < escape_inquire(b).len() ==> #[trigger] escape_inquire(b)[i]
            > 32,
    decreases b.len(),
{
    if b.len() > 0 {
        law_escaped_inquire_is_one_token(b.skip(1));
        let e = escape_inquire(b);
        let d = inquire_escape(b[0]);
        let rest = escape_inquire(b.skip(1));
        assert forall|i: int| 0 <= i < e.len() implies #[trigger] e[i] > 32 by {
            if i < d.len() {
                assert(e[i] == d[i]);
            } else {
                assert(e[i] == rest[i - d.len()]);
            }
        }
    }
}


/// The pieces, concatenated.
pub open spec fn flatten(cs: Seq<Seq<u8>>) -> Seq<u8>
    decreases cs.len(),
{
    if cs.len() == 0 {
        seq![]
    } else {
        cs[0] + flatten(cs.drop_first())
    }
}

/// Escaping at most triples the length.
pub proof fn lemma_escape_data_len(b: Seq<u8>)
    ensures
        escape_data(b).len() <= 3 * b.len(),
    decreases b.len(),
{
    if b.len() > 0 {
        lemma_escape_data_len(b.skip(1));
    }
}

} // verus!
