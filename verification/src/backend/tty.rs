//! The terminal frontend's decisions: which device to use, what to draw,
//! how long to wait, and what each keystroke does. Opening the device and
//! reading from it is left to the caller.
use vstd::prelude::*;
use crate::assuan::error::{AssuanError, ASS_NO_INPUT, CANCELED, TIMEOUT};
use crate::assuan::server::{views, Field};
use crate::assuan::state::{opt_text, spec_effective_cancel, spec_effective_ok, State, StateModel};
use crate::backend::ConfirmOutcome;
use crate::backend::term::{spec_utf8_len, utf8_len};
use crate::secret::{drop_last_char, Secret};
use crate::text::{find, slice_of, str_chars, string_from_chars};

verus! {

/// The terminal used when gpg-agent names none.
pub const FALLBACK_TTY: &'static str = "/dev/tty";

pub struct TtyBackend {
    /// Overridden by `OPTION invisible-char`.
    mask: char,
}

/// The terminal named by `OPTION ttyname`, unless it is unset or empty.
pub open spec fn spec_device_path(s: StateModel) -> Seq<char> {
    match s.options.ttyname {
        Some(t) => if t.len() > 0 {
            t
        } else {
            FALLBACK_TTY@
        },
        None => FALLBACK_TTY@,
    }
}

impl TtyBackend {
    pub closed spec fn spec_mask(&self) -> char {
        self.mask
    }

    pub fn new() -> (r: Self)
        ensures
            r.spec_mask() == '*',
    {
        Self::with_mask('*')
    }

    pub fn with_mask(mask: char) -> (r: Self)
        ensures
            r.spec_mask() == mask,
    {
        Self { mask }
    }

    pub fn device_path(state: &State) -> (r: &str)
        ensures
            r@ == spec_device_path(state@),
    {
        match &state.options.ttyname {
            Some(t) => if t.as_str().is_empty() {
                FALLBACK_TTY
            } else {
                t.as_str()
            },
            None => FALLBACK_TTY,
        }
    }

    /// The first character of `OPTION invisible-char`, else the configured
    /// mask.
    pub fn mask_char(&self, state: &State) -> (r: char)
        ensures
            r == (match opt_text(state.options.invisible_char) {
                Some(s) => if s.len() > 0 {
                    s[0]
                } else {
                    self.spec_mask()
                },
                None => self.spec_mask(),
            }),
    {
        match &state.options.invisible_char {
            Some(s) => {
                let cs = str_chars(s.as_str());
                if cs.len() > 0 {
                    cs[0]
                } else {
                    self.mask
                }
            },
            None => self.mask,
        }
    }

    pub fn flavor(&self) -> (r: &'static str)
        ensures
            r@ == "dank:tty"@,
    {
        "dank:tty"
    }
}

impl Default for TtyBackend {
    fn default() -> (r: Self)
        ensures
            r.spec_mask() == '*',
    {
        Self::new()
    }
}

/// Milliseconds left of the prompt's timeout after `elapsed` nanoseconds, or
/// -1 to block indefinitely when there is no timeout.
pub open spec fn spec_poll_timeout(timeout_secs: u32, elapsed: u128) -> i32 {
    if timeout_secs == 0 {
        -1i32
    } else if elapsed > timeout_secs * 1_000_000_000 {
        0i32
    } else {
        let ms = (timeout_secs * 1_000_000_000 - elapsed) / 1_000_000;
        if ms > i32::MAX {
            i32::MAX
        } else {
            ms as i32
        }
    }
}

/// The time left only counts down: later, it is never more than before; it
/// never exceeds the timeout; and with no timeout the prompt always blocks.
pub proof fn law_poll_timeout_counts_down(timeout_secs: u32, earlier: u128, later: u128)
    requires
        earlier <= later,
    ensures
        timeout_secs == 0 ==> spec_poll_timeout(timeout_secs, later) == -1,
        timeout_secs > 0 ==> 0 <= spec_poll_timeout(timeout_secs, later) <= spec_poll_timeout(
            timeout_secs,
            earlier,
        ),
        timeout_secs > 0 ==> spec_poll_timeout(timeout_secs, earlier) <= timeout_secs * 1000,
{
    if timeout_secs > 0 {
        let budget = timeout_secs * 1_000_000_000;
        if later <= budget {
            assert((budget - later) / 1_000_000 <= (budget - earlier) / 1_000_000) by (nonlinear_arith)
                requires
                    earlier <= later,
                    later <= budget,
            ;
        }
        if earlier <= budget {
            assert((budget - earlier) / 1_000_000 <= timeout_secs * 1000) by (nonlinear_arith)
                requires
                    budget == timeout_secs * 1_000_000_000,
                    0 <= earlier,
            ;
        }
    }
}

/// Milliseconds remaining, or -1 to block indefinitely.
pub fn poll_timeout(state: &State, elapsed_nanos: u128) -> (r: i32)
    ensures
        r == spec_poll_timeout(state.options.timeout_secs, elapsed_nanos),
{
    let secs = state.options.timeout_secs;
    if secs == 0 {
        return -1;
    }
    let budget: u128 = secs as u128 * 1_000_000_000;
    if elapsed_nanos > budget {
        return 0;
    }
    let ms = (budget - elapsed_nanos) / 1_000_000;
    if ms > i32::MAX as u128 {
        i32::MAX
    } else {
        ms as i32
    }
}

/// `s` without the character `c`.
pub open spec fn without(s: Seq<char>, c: char) -> Seq<char>
    decreases s.len(),
{
    if s.len() == 0 {
        s
    } else if s.last() == c {
        without(s.drop_last(), c)
    } else {
        without(s.drop_last(), c).push(s.last())
    }
}

/// gpg-agent marks accelerators with `_` (`_OK`); meaningless on a terminal.
pub fn strip_accelerator(label: &str) -> (r: String)
    ensures
        r@ == without(label@, '_'),
{
    let v = str_chars(label);
    let mut kept: Vec<char> = Vec::new();
    let mut i: usize = 0;
    while i < v.len()
        invariant
            i <= v@.len(),
            kept@ == without(v@.take(i as int), '_'),
        decreases v@.len() - i,
    {
        proof {
            assert(v@.take(i + 1).drop_last() =~= v@.take(i as int));
        }
        if v[i] != '_' {
            kept.push(v[i]);
        }
        i = i + 1;
    }
    proof {
        assert(v@.take(v@.len() as int) =~= v@);
    }
    string_from_chars(&kept)
}

/// `n` copies of `c`.
pub open spec fn repeat(c: char, n: nat) -> Seq<char> {
    Seq::new(n, |i: int| c)
}

/// `<prompt> <one mask character per typed character>`.
pub fn prompt_line(prompt: &str, mask: char, chars: usize) -> (r: String)
    ensures
        r@ == prompt@ + seq![' '] + repeat(mask, chars as nat),
{
    let mut v = str_chars(prompt);
    let ghost p = v@;
    v.push(' ');
    let mut k: usize = 0;
    while k < chars
        invariant
            k <= chars,
            v@ == p + seq![' '] + repeat(mask, k as nat),
        decreases chars - k,
    {
        v.push(mask);
        proof {
            assert(repeat(mask, (k + 1) as nat) =~= repeat(mask, k as nat).push(mask));
        }
        k = k + 1;
    }
    string_from_chars(&v)
}

/// `[OK] ` for a one-button prompt, `[OK/Cancel] ` otherwise, accelerators
/// removed.
pub fn confirm_hint(state: &State, one_button: bool) -> (r: String)
    ensures
        r@ == if one_button {
            seq!['['] + without(spec_effective_ok(state@), '_') + seq![']', ' ']
        } else {
            seq!['['] + without(spec_effective_ok(state@), '_') + seq!['/'] + without(
                spec_effective_cancel(state@),
                '_',
            ) + seq![']', ' ']
        },
{
    let ok = strip_accelerator(state.effective_ok());
    let mut v: Vec<char> = Vec::new();
    v.push('[');
    let okc = str_chars(ok.as_str());
    let mut i: usize = 0;
    while i < okc.len()
        invariant
            i <= okc@.len(),
            v@ == seq!['['] + okc@.take(i as int),
        decreases okc@.len() - i,
    {
        v.push(okc[i]);
        proof {
            assert(okc@.take(i + 1) =~= okc@.take(i as int).push(okc@[i as int]));
        }
        i = i + 1;
    }
    proof {
        assert(okc@.take(okc@.len() as int) =~= okc@);
    }
    if !one_button {
        v.push('/');
        let cancel = strip_accelerator(state.effective_cancel());
        let cc = str_chars(cancel.as_str());
        let ghost before = v@;
        let mut j: usize = 0;
        while j < cc.len()
            invariant
                j <= cc@.len(),
                v@ == before + cc@.take(j as int),
            decreases cc@.len() - j,
        {
            v.push(cc[j]);
            proof {
                assert(cc@.take(j + 1) =~= cc@.take(j as int).push(cc@[j as int]));
            }
            j = j + 1;
        }
        proof {
            assert(cc@.take(cc@.len() as int) =~= cc@);
        }
    }
    v.push(']');
    v.push(' ');
    proof {
        if one_button {
            assert(v@ =~= seq!['['] + without(spec_effective_ok(state@), '_') + seq![']', ' ']);
        } else {
            assert(v@ =~= seq!['['] + without(spec_effective_ok(state@), '_') + seq!['/']
                + without(spec_effective_cancel(state@), '_') + seq![']', ' ']);
        }
    }
    string_from_chars(&v)
}

/// What a byte typed at the passphrase prompt does.
#[derive(Debug, Clone, Copy, PartialEq, Eq, Structural)]
pub enum PinKey {
    /// Enter: the passphrase is complete.
    Submit,
    /// Ctrl-C, Escape, or Ctrl-D on an empty entry.
    Cancel,
    /// Ctrl-D with something typed: nothing happens.
    Ignore,
    /// Backspace or Delete: the last character goes.
    Erase,
    /// Ctrl-U: the whole entry goes.
    Clear,
    /// The first byte of a character of this many bytes.
    Insert(usize),
}

pub open spec fn spec_pin_key(byte: u8, entry_empty: bool) -> PinKey {
    if byte == 13 || byte == 10 {
        PinKey::Submit
    } else if byte == 3 || byte == 0x1b {
        PinKey::Cancel
    } else if byte == 4 {
        if entry_empty {
            PinKey::Cancel
        } else {
            PinKey::Ignore
        }
    } else if byte == 0x7f || byte == 8 {
        PinKey::Erase
    } else if byte == 0x15 {
        PinKey::Clear
    } else {
        PinKey::Insert(spec_utf8_len(byte))
    }
}

/// What each key does at the passphrase prompt, over every byte: Enter
/// (CR or LF) and only Enter submits; Ctrl-C and Escape always cancel and
/// Ctrl-D cancels exactly when nothing is typed; Backspace and Delete erase;
/// Ctrl-U clears; any other byte starts a character of the width its lead
/// byte announces.
pub proof fn law_pin_keys(byte: u8, empty: bool)
    ensures
        spec_pin_key(byte, empty) == PinKey::Submit <==> (byte == 13 || byte == 10),
        spec_pin_key(byte, empty) == PinKey::Cancel <==> (byte == 3 || byte == 0x1b || (byte
            == 4 && empty)),
        spec_pin_key(byte, empty) == PinKey::Ignore <==> (byte == 4 && !empty),
        spec_pin_key(byte, empty) == PinKey::Erase <==> (byte == 0x7f || byte == 8),
        spec_pin_key(byte, empty) == PinKey::Clear <==> byte == 0x15,
        !(byte == 13 || byte == 10 || byte == 3 || byte == 0x1b || byte == 4 || byte == 0x7f
            || byte == 8 || byte == 0x15) ==> spec_pin_key(byte, empty) == PinKey::Insert(
            spec_utf8_len(byte),
        ),
{
}

/// Ctrl-D cancels only on an empty entry, as in a shell.
pub fn pin_key(byte: u8, entry_empty: bool) -> (r: PinKey)
    ensures
        r == spec_pin_key(byte, entry_empty),
{
    if byte == 13 || byte == 10 {
        PinKey::Submit
    } else if byte == 3 || byte == 0x1b {
        PinKey::Cancel
    } else if byte == 4 {
        if entry_empty {
            PinKey::Cancel
        } else {
            PinKey::Ignore
        }
    } else if byte == 0x7f || byte == 8 {
        PinKey::Erase
    } else if byte == 0x15 {
        PinKey::Clear
    } else {
        PinKey::Insert(utf8_len(byte))
    }
}

/// The passphrase being typed, and how many characters the mask shows.
pub struct PinEntry {
    pub secret: Secret,
    pub chars: usize,
}

impl PinEntry {
    pub fn new() -> (r: Self)
        ensures
            r.secret@ == Seq::<u8>::empty(),
            r.chars == 0,
    {
        PinEntry { secret: Secret::new(), chars: 0 }
    }

    /// Backspace: the last whole character goes.
    pub fn erase(&mut self)
        ensures
            final(self).secret@ == drop_last_char(old(self).secret@),
            final(self).secret.spec_capacity() == old(self).secret.spec_capacity(),
            final(self).chars == if old(self).chars > 0 {
                old(self).chars - 1
            } else {
                0
            },
    {
        self.secret.pop_char();
        self.chars = self.chars.saturating_sub(1);
    }

    /// Ctrl-U clears the entry.
    pub fn clear(&mut self)
        ensures
            final(self).secret@ == Seq::<u8>::empty(),
            final(self).secret.spec_capacity() == old(self).secret.spec_capacity(),
            final(self).chars == 0,
    {
        self.secret.clear();
        self.chars = 0;
    }

    /// A whole character arrived; it counts as one mask position if it fits.
    pub fn insert(&mut self, bytes: &[u8]) -> (r: bool)
        requires
            old(self).chars < usize::MAX,
        ensures
            r == (old(self).secret@.len() + bytes@.len() <= old(self).secret.spec_capacity()),
            final(self).secret.spec_capacity() == old(self).secret.spec_capacity(),
            r ==> final(self).secret@ == old(self).secret@ + bytes@ && final(self).chars
                == old(self).chars + 1,
            !r ==> final(self).secret@ == old(self).secret@ && final(self).chars
                == old(self).chars,
    {
        if self.secret.push_bytes(bytes).is_ok() {
            self.chars = self.chars + 1;
            true
        } else {
            false
        }
    }
}

/// Where a passphrase prompt stands after a key.
#[derive(Debug, Clone, Copy, PartialEq, Eq, Structural)]
pub enum PinStep {
    /// Keep reading keys.
    Continue,
    /// The passphrase is complete.
    Submitted,
    /// The prompt was cancelled.
    Cancelled,
}

impl PinEntry {
    /// What `key` does to the entry; for an insertion, `bytes` is the whole
    /// character that arrived, lead byte first.
    pub fn apply(&mut self, key: PinKey, bytes: &[u8]) -> (r: PinStep)
        requires
            key is Insert ==> old(self).chars < usize::MAX,
        ensures
            match key {
                PinKey::Submit => r == PinStep::Submitted && *final(self) == *old(self),
                PinKey::Cancel => r == PinStep::Cancelled && *final(self) == *old(self),
                PinKey::Ignore => r == PinStep::Continue && *final(self) == *old(self),
                PinKey::Erase => r == PinStep::Continue && final(self).secret@ == drop_last_char(
                    old(self).secret@,
                ) && final(self).chars == if old(self).chars > 0 {
                    old(self).chars - 1
                } else {
                    0
                },
                PinKey::Clear => r == PinStep::Continue && final(self).secret@ == Seq::<u8>::empty()
                    && final(self).chars == 0,
                PinKey::Insert(_) => r == PinStep::Continue && if old(self).secret@.len()
                    + bytes@.len() <= old(self).secret.spec_capacity() {
                    final(self).secret@ == old(self).secret@ + bytes@ && final(self).chars
                        == old(self).chars + 1
                } else {
                    final(self).secret@ == old(self).secret@ && final(self).chars
                        == old(self).chars
                },
            },
            final(self).secret.spec_capacity() == old(self).secret.spec_capacity(),
    {
        match key {
            PinKey::Submit => PinStep::Submitted,
            PinKey::Cancel => PinStep::Cancelled,
            PinKey::Ignore => PinStep::Continue,
            PinKey::Erase => {
                self.erase();
                PinStep::Continue
            },
            PinKey::Clear => {
                self.clear();
                PinStep::Continue
            },
            PinKey::Insert(_) => {
                self.insert(bytes);
                PinStep::Continue
            },
        }
    }
}

/// How a passphrase prompt ends after a key: `None` keeps reading; a
/// submitted entry is the answer; a cancelling key is the cancelled error.
pub fn pin_finished(step: PinStep) -> (r: Option<Result<(), AssuanError>>)
    ensures
        match step {
            PinStep::Continue => r is None,
            PinStep::Submitted => r == Some(Ok::<(), AssuanError>(())),
            PinStep::Cancelled => r matches Some(Err(e)) && e.code == CANCELED && e.description@
                == "Operation cancelled"@,
        },
{
    match step {
        PinStep::Continue => None,
        PinStep::Submitted => Some(Ok(())),
        PinStep::Cancelled => Some(Err(AssuanError::canceled())),
    }
}

/// Why reading the terminal stopped before a key arrived.
#[derive(Debug, Clone, Copy, PartialEq, Eq, Structural)]
pub enum Stop {
    /// The terminal reached end of file.
    Eof,
    /// The prompt's timeout ran out.
    TimedOut,
    /// Waiting or reading failed.
    Failed,
    /// An interrupt, termination or hangup signal arrived.
    Signalled,
}

/// What a passphrase prompt answers when reading stops: end of file and a
/// signal cancel, an expired timeout is a timeout, a failure means there is
/// no input source.
pub fn pin_stopped(why: Stop) -> (r: AssuanError)
    ensures
        match why {
            Stop::Eof | Stop::Signalled => r.code == CANCELED && r.description@
                == "Operation cancelled"@,
            Stop::TimedOut => r.code == TIMEOUT && r.description@ == "Timeout"@,
            Stop::Failed => r.code == ASS_NO_INPUT && r.description@ == "No input source for IPC"@,
        },
{
    match why {
        Stop::Eof | Stop::Signalled => AssuanError::canceled(),
        Stop::TimedOut => AssuanError::timeout(),
        Stop::Failed => AssuanError::no_input(),
    }
}

/// What a confirmation answers when reading stops: end of file and a signal
/// are a cancellation, not an error; an expired timeout and a failure are
/// errors.
pub fn confirm_stopped(why: Stop) -> (r: Result<ConfirmOutcome, AssuanError>)
    ensures
        match why {
            Stop::Eof | Stop::Signalled => r == Ok::<ConfirmOutcome, AssuanError>(
                ConfirmOutcome::Cancelled,
            ),
            Stop::TimedOut => r matches Err(e) && e.code == TIMEOUT && e.description@ == "Timeout"@,
            Stop::Failed => r matches Err(e) && e.code == ASS_NO_INPUT && e.description@
                == "No input source for IPC"@,
        },
{
    match why {
        Stop::Eof | Stop::Signalled => Ok(ConfirmOutcome::Cancelled),
        Stop::TimedOut => Err(AssuanError::timeout()),
        Stop::Failed => Err(AssuanError::no_input()),
    }
}

/// What a byte typed at a confirmation does; `None` waits for another.
pub open spec fn spec_confirm_key(one_button: bool, byte: u8) -> Option<ConfirmOutcome> {
    let b = if 65 <= byte && byte <= 90 {
        (byte + 32) as u8
    } else {
        byte
    };
    if one_button {
        Some(ConfirmOutcome::Confirmed)
    } else if b == 121 || b == 13 || b == 10 {
        Some(ConfirmOutcome::Confirmed)
    } else if b == 110 {
        Some(ConfirmOutcome::Declined)
    } else if b == 3 || b == 0x1b {
        Some(ConfirmOutcome::Cancelled)
    } else {
        None
    }
}

/// The ASCII lower case of a byte.
pub open spec fn ascii_lower_byte(b: u8) -> u8 {
    if 65 <= b && b <= 90 {
        (b + 32) as u8
    } else {
        b
    }
}

/// At a two-button confirmation a key's meaning does not depend on its
/// case: a key and its ASCII lower case answer the same. `y`, `Y` and Enter
/// confirm; `n` and `N`, and only they, decline; Ctrl-C and Escape cancel;
/// every other key waits. At a one-button prompt every key confirms.
pub proof fn law_confirm_keys(byte: u8)
    ensures
        spec_confirm_key(false, byte) == spec_confirm_key(false, ascii_lower_byte(byte)),
        spec_confirm_key(false, byte) == Some(ConfirmOutcome::Declined) <==> (byte == 110
            || byte == 78),
        spec_confirm_key(false, byte) == Some(ConfirmOutcome::Confirmed) <==> (byte == 121
            || byte == 89 || byte == 13 || byte == 10),
        spec_confirm_key(false, byte) == Some(ConfirmOutcome::Cancelled) <==> (byte == 3
            || byte == 0x1b),
        spec_confirm_key(true, byte) == Some(ConfirmOutcome::Confirmed),
{
}

/// One-button prompts are informational: any key dismisses them.
pub fn confirm_key(one_button: bool, byte: u8) -> (r: Option<ConfirmOutcome>)
    ensures
        r == spec_confirm_key(one_button, byte),
{
    let b = if 65 <= byte && byte <= 90 {
        byte + 32
    } else {
        byte
    };
    if one_button {
        Some(ConfirmOutcome::Confirmed)
    } else if b == 121 || b == 13 || b == 10 {
        Some(ConfirmOutcome::Confirmed)
    } else if b == 110 {
        Some(ConfirmOutcome::Declined)
    } else if b == 3 || b == 0x1b {
        Some(ConfirmOutcome::Cancelled)
    } else {
        None
    }
}

/// `l` without one trailing carriage return.
pub open spec fn drop_cr(l: Seq<char>) -> Seq<char> {
    if l.len() > 0 && l.last() == '\r' {
        l.drop_last()
    } else {
        l
    }
}

/// `str::lines`: split at line feeds, a carriage return before one dropped,
/// no empty line after a final line feed.
pub open spec fn str_lines(s: Seq<char>) -> Seq<Seq<char>>
    decreases s.len(),
{
    match find(s, '\n') {
        Some(i) => {
            proof {
                crate::text::lemma_find_bounds(s, '\n');
            }
            seq![drop_cr(s.take(i))] + str_lines(s.skip(i + 1))
        },
        None => if s.len() == 0 {
            seq![]
        } else {
            seq![s]
        },
    }
}

/// The lines of a text.
pub fn text_lines(v: &[char]) -> (r: Vec<Vec<char>>)
    ensures
        views(r@) == str_lines(v@),
{
    let mut lines: Vec<Vec<char>> = Vec::new();
    let mut rest = slice_of(v, 0, v.len());
    proof {
        assert(rest@ =~= v@);
        assert(views(lines@) + str_lines(rest@) =~= str_lines(v@));
    }
    loop
        invariant
            views(lines@) + str_lines(rest@) == str_lines(v@),
        decreases rest@.len(),
    {
        match crate::text::find_char(&rest, '\n') {
            Some(i) => {
                proof {
                    crate::text::lemma_find_bounds(rest@, '\n');
                }
                let n = rest.len();
                let end = if i > 0 && rest[i - 1] == '\r' {
                    i - 1
                } else {
                    i
                };
                let line = slice_of(&rest, 0, end);
                let next = slice_of(&rest, i + 1, n);
                let ghost before = views(lines@);
                proof {
                    assert(str_lines(rest@) == seq![drop_cr(rest@.take(i as int))] + str_lines(
                        rest@.skip(i + 1),
                    ));
                    assert(line@ =~= drop_cr(rest@.take(i as int)));
                    assert(next@ =~= rest@.skip(i + 1));
                }
                lines.push(line);
                proof {
                    assert(views(lines@) =~= before + seq![line@]);
                }
                rest = next;
            },
            None => {
                if rest.len() > 0 {
                    let ghost before = views(lines@);
                    let last = slice_of(&rest, 0, rest.len());
                    proof {
                        assert(last@ =~= rest@);
                    }
                    lines.push(last);
                    proof {
                        assert(views(lines@) =~= before + seq![last@]);
                    }
                } else {
                    proof {
                        assert(views(lines@) + Seq::<Seq<char>>::empty() =~= views(lines@));
                    }
                }
                proof {
                    assert(views(lines@) =~= str_lines(v@));
                }
                return lines;
            },
        }
    }
}

/// The title in bold, the description line by line, the error in bold red.
pub open spec fn spec_header(s: StateModel) -> Seq<Seq<char>> {
    (match s.request.title {
        Some(t) => seq!["\u{1b}[1m"@ + t + "\u{1b}[0m"@],
        None => seq![],
    }) + (match s.request.description {
        Some(d) => str_lines(d),
        None => seq![],
    }) + (match s.request.error {
        Some(e) => seq!["\u{1b}[1;31m"@ + e + "\u{1b}[0m"@],
        None => seq![],
    })
}

fn framed(open: &str, text: &String, close: &str) -> (r: Vec<char>)
    ensures
        r@ == open@ + text@ + close@,
{
    let mut v = str_chars(open);
    let t = str_chars(text.as_str());
    let c = str_chars(close);
    let ghost start = v@;
    let mut i: usize = 0;
    while i < t.len()
        invariant
            i <= t@.len(),
            v@ == start + t@.take(i as int),
        decreases t@.len() - i,
    {
        v.push(t[i]);
        proof {
            assert(t@.take(i + 1) =~= t@.take(i as int).push(t@[i as int]));
        }
        i = i + 1;
    }
    let ghost mid = v@;
    let mut j: usize = 0;
    while j < c.len()
        invariant
            j <= c@.len(),
            v@ == mid + c@.take(j as int),
        decreases c@.len() - j,
    {
        v.push(c[j]);
        proof {
            assert(c@.take(j + 1) =~= c@.take(j as int).push(c@[j as int]));
        }
        j = j + 1;
    }
    proof {
        assert(t@.take(t@.len() as int) =~= t@);
        assert(c@.take(c@.len() as int) =~= c@);
        assert(v@ =~= open@ + text@ + close@);
    }
    v
}

/// The lines drawn above the prompt.
pub fn header_lines(state: &State) -> (r: Vec<Vec<char>>)
    ensures
        views(r@) == spec_header(state@),
{
    let mut lines: Vec<Vec<char>> = Vec::new();
    if let Some(title) = &state.request.title {
        lines.push(framed("\u{1b}[1m", title, "\u{1b}[0m"));
    }
    let ghost after_title = views(lines@);
    let ghost title_part: Seq<Seq<char>> = match state@.request.title {
        Some(t) => seq!["\u{1b}[1m"@ + t + "\u{1b}[0m"@],
        None => seq![],
    };
    let ghost desc_part: Seq<Seq<char>> = match state@.request.description {
        Some(d) => str_lines(d),
        None => seq![],
    };
    let ghost err_part: Seq<Seq<char>> = match state@.request.error {
        Some(e) => seq!["\u{1b}[1;31m"@ + e + "\u{1b}[0m"@],
        None => seq![],
    };
    proof {
        assert(after_title =~= title_part);
    }
    if let Some(desc) = &state.request.description {
        let d = str_chars(desc.as_str());
        let ds = text_lines(&d);
        let mut i: usize = 0;
        while i < ds.len()
            invariant
                i <= ds@.len(),
                views(lines@) == after_title + views(ds@).take(i as int),
            decreases ds@.len() - i,
        {
            let ghost before = views(lines@);
            lines.push(slice_of(&ds[i], 0, ds[i].len()));
            proof {
                assert(ds@[i as int]@.subrange(0, ds@[i as int]@.len() as int) =~= ds@[i as int]@);
                assert(views(lines@) =~= before.push(ds@[i as int]@));
                assert(views(ds@).take(i + 1) =~= views(ds@).take(i as int).push(ds@[i as int]@));
            }
            i = i + 1;
        }
        proof {
            assert(views(ds@).take(ds@.len() as int) =~= views(ds@));
        }
    }
    let ghost after_desc = views(lines@);
    proof {
        assert(after_desc =~= title_part + desc_part);
    }
    if let Some(err) = &state.request.error {
        lines.push(framed("\u{1b}[1;31m", err, "\u{1b}[0m"));
    }
    proof {
        assert(views(lines@) =~= after_desc + err_part);
        assert(views(lines@) =~= spec_header(state@));
    }
    lines
}

} // verus!
