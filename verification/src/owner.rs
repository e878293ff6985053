//! Attributing a prompt to the process that triggered it, so the UI can name
//! it. Anti-phishing: normally any process can make an indistinguishable
//! passphrase box appear. Reading `/proc` is the caller's part; turning what
//! it holds into text is done here.
use vstd::prelude::*;
use vstd::utf8::{decode_utf8, encode_utf8, valid_utf8};
use crate::assuan::codec::{string_from_utf8_lossy, utf8_lossy};
use crate::assuan::error::{all_ascii, lemma_ascii_valid_utf8};
use crate::assuan::server::views;
use crate::assuan::state::first_word;
use crate::backend::tty::{str_lines, text_lines};
use crate::text::{decimal, parse_u32, parse_u32_chars, push_decimal, push_str, slice_of, str_chars, string_from_chars, trim, trimmed};

verus! {

/// Caps a pathological argv before it reaches the dialog.
pub const MAX_COMMAND_LEN: usize = 200;

/// The index of the first NUL byte.
pub open spec fn find_nul(b: Seq<u8>) -> Option<int>
    decreases b.len(),
{
    if b.len() == 0 {
        None
    } else if b[0] == 0 {
        Some(0)
    } else {
        match find_nul(b.drop_first()) {
            Some(i) => Some(i + 1),
            None => None,
        }
    }
}

pub proof fn lemma_find_nul(b: Seq<u8>)
    ensures
        find_nul(b) matches Some(i) ==> 0 <= i < b.len() && b[i] == 0,
    decreases b.len(),
{
    if b.len() > 0 {
        lemma_find_nul(b.drop_first());
    }
}

/// `raw` split at each NUL byte, as `slice::split` does.
pub open spec fn nul_segments(raw: Seq<u8>) -> Seq<Seq<u8>>
    decreases raw.len(),
{
    match find_nul(raw) {
        Some(i) => {
            proof {
                lemma_find_nul(raw);
            }
            seq![raw.take(i)] + nul_segments(raw.skip(i + 1))
        },
        None => seq![raw],
    }
}

/// The non-empty pieces.
pub open spec fn nonempty_parts(s: Seq<Seq<u8>>) -> Seq<Seq<u8>>
    decreases s.len(),
{
    if s.len() == 0 {
        s
    } else if s.last().len() == 0 {
        nonempty_parts(s.drop_last())
    } else {
        nonempty_parts(s.drop_last()).push(s.last())
    }
}

/// The pieces decoded and joined with single spaces.
pub open spec fn joined(parts: Seq<Seq<u8>>) -> Seq<char>
    decreases parts.len(),
{
    if parts.len() == 0 {
        seq![]
    } else if parts.len() == 1 {
        utf8_lossy(parts[0])
    } else {
        joined(parts.drop_last()) + seq![' '] + utf8_lossy(parts.last())
    }
}

/// At most `limit` characters: a longer text keeps `limit - 1` of them and
/// ends in an ellipsis.
pub open spec fn spec_truncate(text: Seq<char>, limit: nat) -> Seq<char> {
    if text.len() <= limit {
        text
    } else {
        text.take(if limit > 0 {
            limit - 1
        } else {
            0
        }) + seq!['…']
    }
}

/// A process's `cmdline` as one line of text.
pub open spec fn spec_format_cmdline(raw: Seq<u8>) -> Seq<char> {
    spec_truncate(joined(nonempty_parts(nul_segments(raw))), MAX_COMMAND_LEN as nat)
}

/// A truncated text fits its limit: it is the text itself when that is short
/// enough, else `limit - 1` of its characters and an ellipsis.
pub proof fn law_truncated_text_fits(text: Seq<char>, limit: nat)
    requires
        limit > 0,
    ensures
        spec_truncate(text, limit).len() <= limit,
        text.len() <= limit ==> spec_truncate(text, limit) == text,
        text.len() > limit ==> spec_truncate(text, limit).last() == '…' && spec_truncate(
            text,
            limit,
        ).drop_last() == text.take(limit - 1),
{
    if text.len() > limit {
        assert(spec_truncate(text, limit).drop_last() =~= text.take(limit - 1));
    }
}

pub fn truncate(text: &str, limit: usize) -> (r: String)
    ensures
        r@ == spec_truncate(text@, limit as nat),
{
    let v = str_chars(text);
    if v.len() <= limit {
        return string_from_chars(&v);
    }
    let keep = if limit > 0 {
        limit - 1
    } else {
        0
    };
    let mut out = slice_of(&v, 0, keep);
    out.push('…');
    proof {
        assert(out@ =~= v@.take(keep as int) + seq!['…']);
    }
    string_from_chars(&out)
}

fn nul_split(raw: &[u8]) -> (r: Vec<Vec<u8>>)
    ensures
        r@.map_values(|p: Vec<u8>| p@) == nul_segments(raw@),
{
    let mut segs: Vec<Vec<u8>> = Vec::new();
    let mut start: usize = 0;
    let mut i: usize = 0;
    let n = raw.len();
    proof {
        assert(raw@.skip(0) =~= raw@);
        assert(segs@.map_values(|p: Vec<u8>| p@) + nul_segments(raw@.skip(0)) =~= nul_segments(raw@));
    }
    while i < n
        invariant
            n == raw@.len(),
            start <= i <= n,
            forall|k: int| start <= k < i ==> raw@[k] != 0,
            segs@.map_values(|p: Vec<u8>| p@) + nul_segments(raw@.skip(start as int)) == nul_segments(raw@),
        decreases n - i,
    {
        if raw[i] == 0 {
            let ghost before = segs@.map_values(|p: Vec<u8>| p@);
            let ghost rest = raw@.skip(start as int);
            proof {
                lemma_find_nul_at(rest, (i - start) as int);
                assert(rest.take((i - start) as int) =~= raw@.subrange(start as int, i as int));
                assert(rest.skip((i - start) + 1) =~= raw@.skip(i + 1));
            }
            let seg = vstd::slice::slice_to_vec(vstd::slice::slice_subrange(raw, start, i));
            segs.push(seg);
            proof {
                assert(segs@.map_values(|p: Vec<u8>| p@) =~= before.push(raw@.subrange(start as int, i as int)));
                assert(before.push(raw@.subrange(start as int, i as int)) + nul_segments(raw@.skip(i + 1)) =~= before + nul_segments(rest));
            }
            start = i + 1;
        }
        i = i + 1;
    }
    let ghost before = segs@.map_values(|p: Vec<u8>| p@);
    let ghost rest = raw@.skip(start as int);
    proof {
        lemma_no_nul(rest);
        assert(nul_segments(rest) == seq![rest]);
    }
    let seg = vstd::slice::slice_to_vec(vstd::slice::slice_subrange(raw, start, n));
    segs.push(seg);
    proof {
        assert(raw@.subrange(start as int, n as int) =~= rest);
        assert(segs@.map_values(|p: Vec<u8>| p@) =~= before + seq![rest]);
    }
    segs
}

proof fn lemma_find_nul_at(b: Seq<u8>, i: int)
    requires
        0 <= i < b.len(),
        b[i] == 0,
        forall|k: int| 0 <= k < i ==> b[k] != 0,
    ensures
        find_nul(b) == Some(i),
    decreases i,
{
    if i > 0 {
        lemma_find_nul_at(b.drop_first(), i - 1);
    }
}

proof fn lemma_no_nul(b: Seq<u8>)
    requires
        forall|k: int| 0 <= k < b.len() ==> b[k] != 0,
    ensures
        find_nul(b) is None,
    decreases b.len(),
{
    if b.len() > 0 {
        lemma_no_nul(b.drop_first());
    }
}

/// The NUL-separated arguments of a `cmdline`, empty ones dropped, joined
/// with spaces and cut to [`MAX_COMMAND_LEN`] characters.
pub fn format_cmdline(raw: &[u8]) -> (r: String)
    ensures
        r@ == spec_format_cmdline(raw@),
{
    let segs = nul_split(raw);
    let ghost all = segs@.map_values(|p: Vec<u8>| p@);
    let mut text: Vec<char> = Vec::new();
    let mut parts: usize = 0;
    let mut i: usize = 0;
    proof {
        assert(all.take(0) =~= Seq::<Seq<u8>>::empty());
    }
    while i < segs.len()
        invariant
            all == segs@.map_values(|p: Vec<u8>| p@),
            i <= segs@.len(),
            parts == nonempty_parts(all.take(i as int)).len(),
            text@ == joined(nonempty_parts(all.take(i as int))),
            parts <= i,
        decreases segs@.len() - i,
    {
        let ghost prev = nonempty_parts(all.take(i as int));
        proof {
            assert(all.take(i + 1).drop_last() =~= all.take(i as int));
            assert(all.take(i + 1).last() == segs@[i as int]@);
        }
        if segs[i].len() > 0 {
            if parts > 0 {
                text.push(' ');
            }
            let s = string_from_utf8_lossy(&segs[i]);
            let cs = str_chars(s.as_str());
            let ghost base = text@;
            let mut k: usize = 0;
            while k < cs.len()
                invariant
                    k <= cs@.len(),
                    text@ == base + cs@.take(k as int),
                decreases cs@.len() - k,
            {
                text.push(cs[k]);
                proof {
                    assert(cs@.take(k + 1) =~= cs@.take(k as int).push(cs@[k as int]));
                }
                k = k + 1;
            }
            proof {
                assert(cs@.take(cs@.len() as int) =~= cs@);
                let next = prev.push(segs@[i as int]@);
                assert(next.drop_last() =~= prev);
                if parts == 0 {
                    assert(text@ =~= utf8_lossy(segs@[i as int]@));
                    assert(next[0] == segs@[i as int]@);
                } else {
                    assert(text@ =~= joined(prev) + seq![' '] + utf8_lossy(segs@[i as int]@));
                }
            }
            parts = parts + 1;
        }
        i = i + 1;
    }
    proof {
        assert(all.take(segs@.len() as int) =~= all);
    }
    let joined_text = string_from_chars(&text);
    truncate(joined_text.as_str(), MAX_COMMAND_LEN)
}

/// `/proc/<pid>/<entry>`.
pub open spec fn spec_proc_path(pid: u32, entry: Seq<char>) -> Seq<u8> {
    encode_utf8("/proc/"@) + decimal(pid as nat) + seq![47u8] + encode_utf8(entry)
}

pub fn proc_path(pid: u32, entry: &str) -> (r: String)
    ensures
        r@ == decode_utf8(spec_proc_path(pid, entry@)),
{
    let mut b: Vec<u8> = Vec::new();
    push_str(&mut b, "/proc/");
    let ghost head = b@;
    push_decimal(&mut b, pid as u64);
    b.push(47);
    let ghost mid = b@;
    push_str(&mut b, entry);
    proof {
        assert(b@ =~= spec_proc_path(pid, entry@));
        vstd::utf8::encode_utf8_valid_utf8("/proc/"@);
        crate::assuan::error::lemma_decimal_is_ascii(pid as nat);
        assert(decimal(pid as nat) + seq![47u8] =~= (decimal(pid as nat) + seq![32u8]).update(
            decimal(pid as nat).len() as int,
            47u8,
        ));
        let d = decimal(pid as nat) + seq![47u8];
        assert(all_ascii(d)) by {
            assert forall|i: int| 0 <= i < d.len() implies #[trigger] d[i] < 128 by {
                if i < decimal(pid as nat).len() {
                    assert(d[i] == decimal(pid as nat)[i]);
                }
            }
        }
        lemma_ascii_valid_utf8(d);
        vstd::utf8::valid_utf8_concat(head, d);
        assert(mid =~= head + d);
        vstd::utf8::encode_utf8_valid_utf8(entry@);
        vstd::utf8::valid_utf8_concat(mid, encode_utf8(entry@));
    }
    string_from_utf8_lossy(&b)
}

/// The real uid on the first `Uid:` line of a `/proc/<pid>/status`.
pub open spec fn status_uid(lines: Seq<Seq<char>>) -> Option<u32>
    decreases lines.len(),
{
    if lines.len() == 0 {
        None
    } else if lines[0].len() >= 4 && lines[0].take(4) == "Uid:"@ {
        parse_u32(first_word(lines[0].skip(4)))
    } else {
        status_uid(lines.drop_first())
    }
}

/// Pids are recycled, so a stale owner pid can point at an unrelated
/// process: whether the status text names `uid` as the real uid.
pub fn status_belongs_to_uid(status: &str, uid: u32) -> (r: bool)
    ensures
        r == (status_uid(str_lines(status@)) == Some(uid)),
{
    let lines = text_lines(&str_chars(status));
    let ghost all = views(lines@);
    let prefix = str_chars("Uid:");
    let mut i: usize = 0;
    proof {
        assert(all.skip(0) =~= all);
    }
    while i < lines.len()
        invariant
            all == views(lines@),
            all == str_lines(status@),
            i <= lines@.len(),
            prefix@ == "Uid:"@,
            status_uid(all) == status_uid(all.skip(i as int)),
        decreases lines@.len() - i,
    {
        let line = &lines[i];
        let ghost rest = all.skip(i as int);
        proof {
            assert(rest[0] == line@);
            assert(rest.drop_first() =~= all.skip(i + 1));
        }
        if line.len() >= 4 && crate::text::chars_eq(&slice_of(line, 0, 4), &prefix) {
            let tail = slice_of(line, 4, line.len());
            let word = crate::assuan::state::first_word_of(&tail);
            proof {
                assert(tail@ =~= line@.skip(4));
                assert(line@.subrange(0, 4) =~= line@.take(4));
                assert(rest[0].take(4) == "Uid:"@);
                assert(status_uid(rest) == parse_u32(first_word(line@.skip(4))));
            }
            return match parse_u32_chars(&word) {
                Some(v) => v == uid,
                None => false,
            };
        }
        proof {
            if line@.len() >= 4 {
                assert(line@.subrange(0, 4) =~= line@.take(4));
            }
        }
        i = i + 1;
    }
    proof {
        assert(all.skip(i as int) =~= Seq::<Seq<char>>::empty());
    }
    false
}

/// The process name from `/proc/<pid>/comm`; `None` when it is blank
/// (kernel threads, zombies).
pub fn process_name_from_comm(raw: &str) -> (r: Option<String>)
    ensures
        r matches Some(s) ==> s@ == trim(raw@) && s@.len() > 0,
        r is None <==> trim(raw@).len() == 0,
{
    let name = trimmed(&str_chars(raw));
    if name.len() == 0 {
        None
    } else {
        Some(string_from_chars(&name))
    }
}

} // verus!
