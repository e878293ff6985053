//! The command loop: what each Assuan command does to the state and what it
//! answers. A caller that owns the pipes feeds it one line at a time with
//! [`Server::handle_line`]; [`Server::run`] drives a whole session held in
//! memory.
use vstd::prelude::*;
use vstd::utf8::encode_utf8;
use crate::assuan::codec::{decode_argument, encode_data, escape_data, percent_decode, utf8_lossy};
use crate::assuan::error::{
    spec_gpg_error, AssuanError, ASS_GENERAL, ASS_PARAMETER, ASS_UNKNOWN_CMD, CANCELED,
    NOT_CONFIRMED,
};
use crate::assuan::state::{
    after_getpin, empty_request, opt_text, parse_owner, OptionsModel, Owner, OwnerModel,
    Request, RequestModel, State, StateModel,
};
use crate::backend::{
    parse_confirm_options, Backend, ConfirmOptions, ConfirmOutcome, PinResponse,
};
use crate::text::{
    ascii_upper, decimal, find, is, parse_i64, parse_u32, split_once, trim, trim_start,
};

verus! {

/// Assuan caps a line at 1000 bytes and escaping can triple a byte, so chunk
/// well below that.
pub const MAX_DATA_CHUNK: usize = 256;

/// Reported by `GETINFO version`.
pub const VERSION: &'static str = "0.1.0";

/// The process facts that `GETINFO pid` and `GETINFO ttyinfo` report.
#[derive(Debug, Clone, Copy, PartialEq, Eq, Structural)]
pub struct HostInfo {
    pub pid: u32,
    pub euid: u32,
    pub egid: u32,
}

/// The `ERR` line for an error code and description.
pub open spec fn err_bytes(code: u32, description: Seq<char>) -> Seq<u8> {
    seq![69u8, 82, 82, 32] + decimal(spec_gpg_error(code) as nat) + seq![32u8] + encode_utf8(
        description,
    ) + seq![10u8]
}

pub open spec fn ok_line() -> Seq<u8> {
    encode_utf8("OK\n"@)
}

pub open spec fn greeting() -> Seq<u8> {
    encode_utf8("OK Pleased to meet you\n"@)
}

pub open spec fn closing_line() -> Seq<u8> {
    encode_utf8("OK closing connection\n"@)
}

pub open spec fn pin_repeated_line() -> Seq<u8> {
    encode_utf8("S PIN_REPEATED\n"@)
}

/// The pieces, at most [`MAX_DATA_CHUNK`] bytes each, that data is sent in;
/// empty data is sent as one empty piece.
pub open spec fn chunks(d: Seq<u8>) -> Seq<Seq<u8>>
    decreases d.len(),
{
    if d.len() <= 256 {
        seq![d]
    } else {
        seq![d.take(256)] + chunks(d.skip(256))
    }
}

/// One `D` line per piece.
pub open spec fn lines_of(cs: Seq<Seq<u8>>) -> Seq<u8>
    decreases cs.len(),
{
    if cs.len() == 0 {
        seq![]
    } else {
        seq![68u8, 32] + escape_data(cs[0]) + seq![10u8] + lines_of(cs.drop_first())
    }
}

/// The `D` lines that carry `d`.
pub open spec fn data_lines(d: Seq<u8>) -> Seq<u8> {
    lines_of(chunks(d))
}

/// The line without the trailing CR and LF characters.
pub open spec fn strip_eol(l: Seq<char>) -> Seq<char>
    decreases l.len(),
{
    if l.len() > 0 && (l.last() == '\r' || l.last() == '\n') {
        strip_eol(l.drop_last())
    } else {
        l
    }
}

/// What a passphrase prompt answered, by value.
pub struct PinModel {
    pub secret: Seq<u8>,
    pub repeated: bool,
}

pub open spec fn pin_model(p: PinResponse) -> PinModel {
    PinModel { secret: p.secret@, repeated: p.repeated }
}

/// What the frontend answers when the server asks it: the passphrase prompt,
/// the confirmation and the flavor name. Whatever these are, the server's
/// response follows from them.
pub struct Answers {
    pub pin: Result<PinModel, AssuanError>,
    pub confirm: Result<ConfirmOutcome, AssuanError>,
    pub flavor: Seq<char>,
}

/// The effect of one line.
pub struct Outcome {
    pub state: StateModel,
    pub out: Seq<u8>,
    pub bye: bool,
}

#[derive(Debug, Clone, Copy, PartialEq, Eq, Structural)]
pub enum Field {
    Description,
    Prompt,
    Title,
    Error,
    OkLabel,
    NotOk,
    Cancel,
    Repeat,
    RepeatOk,
    RepeatError,
    GenPin,
    GenPinTt,
    QualityBarTt,
}

#[derive(Debug, Clone, Copy, PartialEq, Eq, Structural)]
pub enum Command {
    Bye,
    Reset,
    Nop,
    Cancel,
    End,
    Option,
    GetInfo,
    GetPin,
    Confirm,
    Message,
    SetText(Field),
    SetKeyInfo,
    SetQualityBar,
    SetTimeout,
    ClearPassphrase,
    Unknown,
}

/// The command an upper-cased command word names.
pub open spec fn command_of(c: Seq<char>) -> Command {
    if c == "BYE"@ {
        Command::Bye
    } else if c == "RESET"@ {
        Command::Reset
    } else if c == "NOP"@ {
        Command::Nop
    } else if c == "CANCEL"@ {
        Command::Cancel
    } else if c == "END"@ {
        Command::End
    } else if c == "OPTION"@ {
        Command::Option
    } else if c == "GETINFO"@ {
        Command::GetInfo
    } else if c == "GETPIN"@ {
        Command::GetPin
    } else if c == "CONFIRM"@ {
        Command::Confirm
    } else if c == "MESSAGE"@ {
        Command::Message
    } else if c == "SETDESC"@ {
        Command::SetText(Field::Description)
    } else if c == "SETPROMPT"@ {
        Command::SetText(Field::Prompt)
    } else if c == "SETTITLE"@ {
        Command::SetText(Field::Title)
    } else if c == "SETERROR"@ {
        Command::SetText(Field::Error)
    } else if c == "SETOK"@ {
        Command::SetText(Field::OkLabel)
    } else if c == "SETNOTOK"@ {
        Command::SetText(Field::NotOk)
    } else if c == "SETCANCEL"@ {
        Command::SetText(Field::Cancel)
    } else if c == "SETREPEAT"@ {
        Command::SetText(Field::Repeat)
    } else if c == "SETREPEATOK"@ {
        Command::SetText(Field::RepeatOk)
    } else if c == "SETREPEATERROR"@ {
        Command::SetText(Field::RepeatError)
    } else if c == "SETGENPIN"@ {
        Command::SetText(Field::GenPin)
    } else if c == "SETGENPIN_TT"@ {
        Command::SetText(Field::GenPinTt)
    } else if c == "SETQUALITYBAR_TT"@ {
        Command::SetText(Field::QualityBarTt)
    } else if c == "SETKEYINFO"@ {
        Command::SetKeyInfo
    } else if c == "SETQUALITYBAR"@ {
        Command::SetQualityBar
    } else if c == "SETTIMEOUT"@ {
        Command::SetTimeout
    } else if c == "CLEARPASSPHRASE"@ {
        Command::ClearPassphrase
    } else {
        Command::Unknown
    }
}

/// A command argument after percent-decoding.
pub open spec fn decoded(rest: Seq<char>) -> Seq<char> {
    utf8_lossy(percent_decode(encode_utf8(rest)))
}

/// An empty value clears the field.
pub open spec fn nonempty(v: Seq<char>) -> Option<Seq<char>> {
    if v.len() == 0 {
        None
    } else {
        Some(v)
    }
}

pub open spec fn set_field(r: RequestModel, f: Field, v: Option<Seq<char>>) -> RequestModel {
    match f {
        Field::Description => RequestModel { description: v, ..r },
        Field::Prompt => RequestModel { prompt: v, ..r },
        Field::Title => RequestModel { title: v, ..r },
        Field::Error => RequestModel { error: v, ..r },
        Field::OkLabel => RequestModel { ok: v, ..r },
        Field::NotOk => RequestModel { notok: v, ..r },
        Field::Cancel => RequestModel { cancel: v, ..r },
        Field::Repeat => RequestModel { repeat_passphrase: v, ..r },
        Field::RepeatOk => RequestModel { repeat_ok: v, ..r },
        Field::RepeatError => RequestModel { repeat_error: v, ..r },
        Field::GenPin => RequestModel { genpin_label: v, ..r },
        Field::GenPinTt => RequestModel { genpin_tt: v, ..r },
        Field::QualityBarTt => RequestModel { quality_bar_tt: v, ..r },
    }
}

/// `trim_start_matches("--")`.
pub open spec fn strip_dashes(s: Seq<char>) -> Seq<char>
    decreases s.len(),
{
    if s.len() >= 2 && s[0] == '-' && s[1] == '-' {
        strip_dashes(s.skip(2))
    } else {
        s
    }
}

/// `key=value`, `key value`, or a bare flag, optionally `--` prefixed.
pub open spec fn option_key_value(rest: Seq<char>) -> (Seq<char>, Seq<char>) {
    let r = strip_dashes(rest);
    match split_once(r, '=') {
        Some((k, v)) => (trim(k), trim(v)),
        None => match split_once(r, ' ') {
            Some((k, v)) => (trim(k), trim(v)),
            None => (trim(r), seq![]),
        },
    }
}

/// The options after `OPTION key value`, or `None` for an unknown key.
pub open spec fn apply_option(o: OptionsModel, key: Seq<char>, value: Seq<char>) -> Option<
    OptionsModel,
> {
    let v = Some(value);
    if key == "grab"@ {
        Some(OptionsModel { grab: true, ..o })
    } else if key == "no-grab"@ {
        Some(OptionsModel { grab: false, ..o })
    } else if key == "ttyname"@ {
        Some(OptionsModel { ttyname: v, ..o })
    } else if key == "ttytype"@ {
        Some(OptionsModel { ttytype: v, ..o })
    } else if key == "ttyalert"@ {
        Some(OptionsModel { ttyalert: v, ..o })
    } else if key == "lc-ctype"@ {
        Some(OptionsModel { lc_ctype: v, ..o })
    } else if key == "lc-messages"@ {
        Some(OptionsModel { lc_messages: v, ..o })
    } else if key == "display"@ {
        Some(OptionsModel { display: v, ..o })
    } else if key == "owner"@ {
        Some(OptionsModel { owner: Some(parse_owner(value)), ..o })
    } else if key == "parent-wid"@ {
        Some(OptionsModel { parent_wid: parse_i64(trim(value)), ..o })
    } else if key == "touch-file"@ {
        Some(OptionsModel { touch_file: v, ..o })
    } else if key == "default-ok"@ {
        Some(OptionsModel { default_ok: v, ..o })
    } else if key == "default-cancel"@ {
        Some(OptionsModel { default_cancel: v, ..o })
    } else if key == "default-prompt"@ {
        Some(OptionsModel { default_prompt: v, ..o })
    } else if key == "default-pwmngr"@ {
        Some(OptionsModel { default_pwmngr: v, ..o })
    } else if key == "default-cf-visi"@ {
        Some(OptionsModel { default_cf_visi: v, ..o })
    } else if key == "default-tt-visi"@ {
        Some(OptionsModel { default_tt_visi: v, ..o })
    } else if key == "default-tt-hide"@ {
        Some(OptionsModel { default_tt_hide: v, ..o })
    } else if key == "default-capshint"@ {
        Some(OptionsModel { default_capshint: v, ..o })
    } else if key == "allow-external-password-cache"@ {
        Some(OptionsModel { allow_external_password_cache: true, ..o })
    } else if key == "invisible-char"@ {
        Some(OptionsModel { invisible_char: v, ..o })
    } else if key == "formatted-passphrase"@ {
        Some(OptionsModel { formatted_passphrase: true, ..o })
    } else if key == "formatted-passphrase-hint"@ {
        Some(OptionsModel { formatted_passphrase_hint: Some(decoded(value)), ..o })
    } else if key == "constraints-enforce"@ {
        Some(OptionsModel { constraints_enforce: true, ..o })
    } else if key == "constraints-hint-short"@ {
        Some(OptionsModel { constraints_hint_short: Some(decoded(value)), ..o })
    } else if key == "constraints-hint-long"@ {
        Some(OptionsModel { constraints_hint_long: Some(decoded(value)), ..o })
    } else if key == "constraints-error-title"@ {
        Some(OptionsModel { constraints_error_title: Some(decoded(value)), ..o })
    } else if key == "debug-wait"@ || key == "allow-emacs-prompt"@ {
        Some(o)
    } else {
        None
    }
}

/// A value, or `-` when it is unset.
pub open spec fn or_dash(o: Option<Seq<char>>) -> Seq<u8> {
    match o {
        Some(s) => encode_utf8(s),
        None => seq![45u8],
    }
}

/// `<ttyname> <ttytype> <display> - <euid>/<egid> -`.
pub open spec fn ttyinfo(o: OptionsModel, h: HostInfo) -> Seq<u8> {
    or_dash(o.ttyname) + seq![32u8] + or_dash(o.ttytype) + seq![32u8] + or_dash(o.display) + seq![
        32u8,
        45,
        32,
    ] + decimal(h.euid as nat) + seq![47u8] + decimal(h.egid as nat) + seq![32u8, 45]
}

pub open spec fn host_unknown_line() -> Seq<u8> {
    err_bytes(ASS_GENERAL, "Process information unavailable"@)
}

/// The answer to `GETINFO <key>`.
pub open spec fn getinfo_reply(o: OptionsModel, host: Option<HostInfo>, key: Seq<char>, flavor: Seq<char>) -> Seq<u8> {
    if key == "version"@ {
        data_lines(encode_utf8(VERSION@)) + ok_line()
    } else if key == "pid"@ {
        match host {
            Some(h) => data_lines(decimal(h.pid as nat)) + ok_line(),
            None => host_unknown_line(),
        }
    } else if key == "flavor"@ {
        data_lines(encode_utf8(flavor)) + ok_line()
    } else if key == "ttyinfo"@ {
        match host {
            Some(h) => data_lines(ttyinfo(o, h)) + ok_line(),
            None => host_unknown_line(),
        }
    } else {
        err_bytes(ASS_PARAMETER, "IPC parameter error"@)
    }
}

/// The answer to `GETPIN`, given what the frontend answered.
pub open spec fn getpin_reply(r: Result<PinModel, AssuanError>) -> Seq<u8> {
    match r {
        Ok(pin) => (if pin.repeated {
            pin_repeated_line()
        } else {
            seq![]
        }) + data_lines(pin.secret) + ok_line(),
        Err(e) => err_bytes(e.code, e.description@),
    }
}

/// The answer to `CONFIRM`, given what the frontend answered.
pub open spec fn confirm_reply(options: ConfirmOptions, r: Result<ConfirmOutcome, AssuanError>) -> Seq<u8> {
    match r {
        Ok(outcome) => if options.one_button {
            ok_line()
        } else {
            match outcome {
                ConfirmOutcome::Confirmed => ok_line(),
                ConfirmOutcome::Declined => err_bytes(NOT_CONFIRMED, "Not confirmed"@),
                ConfirmOutcome::Cancelled => err_bytes(CANCELED, "Operation cancelled"@),
            }
        },
        Err(e) => err_bytes(e.code, e.description@),
    }
}

pub open spec fn with_request(st: StateModel, r: RequestModel) -> StateModel {
    StateModel { request: r, ..st }
}

pub open spec fn with_options(st: StateModel, o: OptionsModel) -> StateModel {
    StateModel { options: o, ..st }
}

pub open spec fn reply(st: StateModel, out: Seq<u8>) -> Outcome {
    Outcome { state: st, out, bye: false }
}

/// What `command` with argument `rest` does.
pub open spec fn run_command(st: StateModel, host: Option<HostInfo>, command: Command, rest: Seq<char>, a: Answers) -> Outcome {
    match command {
        Command::Bye => Outcome { state: st, out: closing_line(), bye: true },
        Command::Reset => reply(with_request(st, empty_request()), ok_line()),
        Command::Nop | Command::End | Command::ClearPassphrase => reply(st, ok_line()),
        Command::Cancel => reply(st, err_bytes(CANCELED, "Operation cancelled"@)),
        Command::Option => {
            let (key, value) = option_key_value(rest);
            match apply_option(st.options, key, value) {
                Some(o) => reply(with_options(st, o), ok_line()),
                None => reply(st, err_bytes(ASS_PARAMETER, "IPC parameter error"@)),
            }
        },
        Command::GetInfo => reply(st, getinfo_reply(st.options, host, trim(rest), a.flavor)),
        Command::GetPin => reply(
            with_request(st, after_getpin(st.request)),
            getpin_reply(a.pin),
        ),
        Command::Confirm => reply(
            with_request(st, RequestModel { error: None, ..st.request }),
            confirm_reply(parse_confirm_options(rest), a.confirm),
        ),
        Command::Message => reply(
            with_request(st, RequestModel { error: None, ..st.request }),
            confirm_reply(parse_confirm_options("--one-button"@), a.confirm),
        ),
        Command::SetText(f) => reply(
            with_request(st, set_field(st.request, f, nonempty(decoded(rest)))),
            ok_line(),
        ),
        Command::SetKeyInfo => reply(
            with_request(
                st,
                RequestModel {
                    keyinfo: if rest.len() == 0 || rest == "--clear"@ {
                        None
                    } else {
                        Some(rest)
                    },
                    ..st.request
                },
            ),
            ok_line(),
        ),
        Command::SetQualityBar => reply(
            with_request(
                st,
                RequestModel {
                    quality_bar: Some(
                        if rest.len() == 0 {
                            "Quality:"@
                        } else {
                            decoded(rest)
                        },
                    ),
                    ..st.request
                },
            ),
            ok_line(),
        ),
        Command::SetTimeout => match parse_u32(trim(rest)) {
            Some(secs) => reply(
                with_options(st, OptionsModel { timeout_secs: secs, ..st.options }),
                ok_line(),
            ),
            None => reply(st, ok_line()),
        },
        Command::Unknown => reply(st, err_bytes(ASS_UNKNOWN_CMD, "Unknown IPC command"@)),
    }
}

/// The command word and the argument of a line.
pub open spec fn split_line(l: Seq<char>) -> (Seq<char>, Seq<char>) {
    match split_once(l, ' ') {
        Some((c, r)) => (c, trim_start(r)),
        None => (l, seq![]),
    }
}

/// The command a line names, and its argument; `None` for an empty line or
/// a `#` comment.
pub open spec fn line_command(line: Seq<char>) -> Option<(Command, Seq<char>)> {
    let l = strip_eol(line);
    if l.len() == 0 || l[0] == '#' {
        None
    } else {
        let (c, rest) = split_line(l);
        Some((command_of(ascii_upper(c)), rest))
    }
}

/// What one input line does. Empty lines and `#` comments do nothing.
pub open spec fn respond(st: StateModel, host: Option<HostInfo>, line: Seq<char>, a: Answers) -> Outcome {
    let l = strip_eol(line);
    if l.len() == 0 || l[0] == '#' {
        reply(st, seq![])
    } else {
        let (c, rest) = split_line(l);
        run_command(st, host, command_of(ascii_upper(c)), rest, a)
    }
}


pub open spec fn pin_result(r: Result<PinResponse, AssuanError>) -> Result<PinModel, AssuanError> {
    match r {
        Ok(p) => Ok(pin_model(p)),
        Err(e) => Err(e),
    }
}

proof fn lemma_chunks_step(d: Seq<u8>, i: int)
    requires
        0 <= i <= d.len(),
        d.len() - i > 256,
    ensures
        lines_of(chunks(d.skip(i))) == seq![68u8, 32] + escape_data(d.subrange(i, i + 256))
            + seq![10u8] + lines_of(chunks(d.skip(i + 256))),
{
    let s = d.skip(i);
    assert(s.take(256) =~= d.subrange(i, i + 256));
    assert(s.skip(256) =~= d.skip(i + 256));
    let cs = chunks(s);
    assert(cs == seq![s.take(256)] + chunks(s.skip(256)));
    assert(cs[0] == s.take(256));
    assert(cs.drop_first() =~= chunks(s.skip(256)));
}

proof fn lemma_chunks_last(d: Seq<u8>, i: int)
    requires
        0 <= i <= d.len(),
        d.len() - i <= 256,
    ensures
        lines_of(chunks(d.skip(i))) == seq![68u8, 32] + escape_data(d.skip(i)) + seq![10u8],
{
    let s = d.skip(i);
    let cs = chunks(s);
    assert(cs == seq![s]);
    assert(cs.drop_first() =~= Seq::<Seq<u8>>::empty());
    assert(lines_of(cs.drop_first()) == Seq::<u8>::empty());
    assert(seq![68u8, 32] + escape_data(s) + seq![10u8] + Seq::<u8>::empty() =~= seq![68u8, 32]
        + escape_data(s) + seq![10u8]);
}

/// Writes `data` as `D` lines. Raw bytes, so non-ASCII passphrases survive;
/// splitting a multi-byte character across lines is harmless, as the
/// receiver concatenates first.
pub fn write_data(out: &mut Vec<u8>, data: &[u8])
    ensures
        final(out)@ == old(out)@ + data_lines(data@),
{
    let ghost start = out@;
    let n = data.len();
    let mut i: usize = 0;
    proof {
        assert(data@.skip(0) =~= data@);
    }
    while n - i > MAX_DATA_CHUNK
        invariant
            n == data@.len(),
            i <= n,
            start + data_lines(data@) == out@ + lines_of(chunks(data@.skip(i as int))),
        decreases n - i,
    {
        let ghost before = out@;
        proof {
            lemma_chunks_step(data@, i as int);
        }
        out.push(68);
        out.push(32);
        let piece = vstd::slice::slice_subrange(data, i, i + MAX_DATA_CHUNK);
        let escaped = encode_data(piece);
        crate::text::push_all(out, &escaped);
        out.push(10);
        proof {
            assert(out@ =~= before + (seq![68u8, 32] + escape_data(
                data@.subrange(i as int, i + 256),
            ) + seq![10u8]));
        }
        i = i + MAX_DATA_CHUNK;
    }
    let ghost before = out@;
    proof {
        lemma_chunks_last(data@, i as int);
    }
    out.push(68);
    out.push(32);
    let piece = vstd::slice::slice_subrange(data, i, n);
    let escaped = encode_data(piece);
    crate::text::push_all(out, &escaped);
    out.push(10);
    proof {
        assert(data@.subrange(i as int, n as int) =~= data@.skip(i as int));
        assert(out@ =~= before + (seq![68u8, 32] + escape_data(data@.skip(i as int)) + seq![
            10u8,
        ]));
    }
}

fn write_ok(out: &mut Vec<u8>)
    ensures
        final(out)@ == old(out)@ + ok_line(),
{
    crate::text::push_str(out, "OK\n");
}

fn write_error(out: &mut Vec<u8>, e: AssuanError)
    ensures
        final(out)@ == old(out)@ + err_bytes(e.code, e.description@),
{
    crate::assuan::error::write_err(out, e);
}

/// The answer to `GETPIN` for what the frontend returned.
pub fn write_getpin_reply(out: &mut Vec<u8>, result: &Result<PinResponse, AssuanError>)
    ensures
        final(out)@ == old(out)@ + getpin_reply(pin_result(*result)),
{
    let ghost start = out@;
    match result {
        Ok(pin) => {
            // Must precede the data: gpg-agent reads it as a status line
            // of this same transaction.
            if pin.repeated {
                crate::text::push_str(out, "S PIN_REPEATED\n");
            }
            let ghost mid = out@;
            write_data(out, pin.secret.as_bytes());
            write_ok(out);
            proof {
                assert(out@ =~= start + ((if pin.repeated {
                    pin_repeated_line()
                } else {
                    seq![]
                }) + data_lines(pin.secret@) + ok_line()));
            }
        },
        Err(e) => write_error(out, *e),
    }
}

/// The answer to `CONFIRM` for what the frontend returned. One-button prompts
/// are informational: there is no way to say no.
pub fn write_confirm_reply(
    out: &mut Vec<u8>,
    options: ConfirmOptions,
    result: &Result<ConfirmOutcome, AssuanError>,
)
    ensures
        final(out)@ == old(out)@ + confirm_reply(options, *result),
{
    match result {
        Ok(_) if options.one_button => write_ok(out),
        Ok(ConfirmOutcome::Confirmed) => write_ok(out),
        Ok(ConfirmOutcome::Declined) => write_error(out, AssuanError::not_confirmed()),
        Ok(ConfirmOutcome::Cancelled) => write_error(out, AssuanError::canceled()),
        Err(e) => write_error(out, *e),
    }
}

/// The command an upper-cased command word names.
pub fn classify(c: &[char]) -> (r: Command)
    ensures
        r == command_of(c@),
{
    if is(c, "BYE") {
        Command::Bye
    } else if is(c, "RESET") {
        Command::Reset
    } else if is(c, "NOP") {
        Command::Nop
    } else if is(c, "CANCEL") {
        Command::Cancel
    } else if is(c, "END") {
        Command::End
    } else if is(c, "OPTION") {
        Command::Option
    } else if is(c, "GETINFO") {
        Command::GetInfo
    } else if is(c, "GETPIN") {
        Command::GetPin
    } else if is(c, "CONFIRM") {
        Command::Confirm
    } else if is(c, "MESSAGE") {
        Command::Message
    } else if is(c, "SETDESC") {
        Command::SetText(Field::Description)
    } else if is(c, "SETPROMPT") {
        Command::SetText(Field::Prompt)
    } else if is(c, "SETTITLE") {
        Command::SetText(Field::Title)
    } else if is(c, "SETERROR") {
        Command::SetText(Field::Error)
    } else if is(c, "SETOK") {
        Command::SetText(Field::OkLabel)
    } else if is(c, "SETNOTOK") {
        Command::SetText(Field::NotOk)
    } else if is(c, "SETCANCEL") {
        Command::SetText(Field::Cancel)
    } else if is(c, "SETREPEAT") {
        Command::SetText(Field::Repeat)
    } else if is(c, "SETREPEATOK") {
        Command::SetText(Field::RepeatOk)
    } else if is(c, "SETREPEATERROR") {
        Command::SetText(Field::RepeatError)
    } else if is(c, "SETGENPIN") {
        Command::SetText(Field::GenPin)
    } else if is(c, "SETGENPIN_TT") {
        Command::SetText(Field::GenPinTt)
    } else if is(c, "SETQUALITYBAR_TT") {
        Command::SetText(Field::QualityBarTt)
    } else if is(c, "SETKEYINFO") {
        Command::SetKeyInfo
    } else if is(c, "SETQUALITYBAR") {
        Command::SetQualityBar
    } else if is(c, "SETTIMEOUT") {
        Command::SetTimeout
    } else if is(c, "CLEARPASSPHRASE") {
        Command::ClearPassphrase
    } else {
        Command::Unknown
    }
}

/// Percent-decodes an argument.
fn decode_chars(rest: &[char]) -> (r: String)
    ensures
        r@ == decoded(rest@),
{
    let s = crate::text::string_from_chars(rest);
    decode_argument(s.as_str())
}

fn set_request_field(r: &mut Request, f: Field, v: Option<String>)
    ensures
        final(r)@ == set_field(old(r)@, f, opt_text(v)),
{
    match f {
        Field::Description => r.description = v,
        Field::Prompt => r.prompt = v,
        Field::Title => r.title = v,
        Field::Error => r.error = v,
        Field::OkLabel => r.ok = v,
        Field::NotOk => r.notok = v,
        Field::Cancel => r.cancel = v,
        Field::Repeat => r.repeat_passphrase = v,
        Field::RepeatOk => r.repeat_ok = v,
        Field::RepeatError => r.repeat_error = v,
        Field::GenPin => r.genpin_label = v,
        Field::GenPinTt => r.genpin_tt = v,
        Field::QualityBarTt => r.quality_bar_tt = v,
    }
}


proof fn lemma_strip_dashes_step(s: Seq<char>, i: int)
    requires
        0 <= i,
        i + 2 <= s.len(),
        s[i] == '-',
        s[i + 1] == '-',
    ensures
        strip_dashes(s.skip(i)) == strip_dashes(s.skip(i + 2)),
{
    assert(s.skip(i).skip(2) =~= s.skip(i + 2));
}

/// `trim_start_matches("--")`.
fn strip_dashes_exec(v: &[char]) -> (r: Vec<char>)
    ensures
        r@ == strip_dashes(v@),
{
    let n = v.len();
    let mut i: usize = 0;
    proof {
        assert(v@.skip(0) =~= v@);
    }
    while n - i >= 2 && v[i] == '-' && v[i + 1] == '-'
        invariant
            n == v@.len(),
            i <= n,
            strip_dashes(v@) == strip_dashes(v@.skip(i as int)),
        decreases n - i,
    {
        proof {
            lemma_strip_dashes_step(v@, i as int);
        }
        i = i + 2;
    }
    proof {
        let t = v@.skip(i as int);
        if t.len() >= 2 {
            assert(t[0] == v@[i as int]);
            assert(t[1] == v@[i + 1]);
        }
    }
    let r = crate::text::slice_of(v, i, n);
    proof {
        assert(r@ =~= v@.skip(i as int));
    }
    r
}

fn option_key_value_exec(rest: &[char]) -> (r: (Vec<char>, Vec<char>))
    ensures
        (r.0@, r.1@) == option_key_value(rest@),
{
    let r = strip_dashes_exec(rest);
    match crate::text::split_once_char(&r, '=') {
        Some((k, v)) => (crate::text::trimmed(&k), crate::text::trimmed(&v)),
        None => match crate::text::split_once_char(&r, ' ') {
            Some((k, v)) => (crate::text::trimmed(&k), crate::text::trimmed(&v)),
            None => (crate::text::trimmed(&r), Vec::new()),
        },
    }
}

/// Applies `OPTION key value`; false for an unknown key, which changes
/// nothing.
fn apply_option_exec(o: &mut crate::assuan::state::Options, key: &[char], value: &[char]) -> (r: bool)
    ensures
        r == apply_option(old(o)@, key@, value@) is Some,
        r ==> final(o)@ == apply_option(old(o)@, key@, value@).unwrap(),
        !r ==> final(o)@ == old(o)@,
{
    let some = || -> (s: Option<String>)
        ensures
            opt_text(s) == Some(value@),
        { Some(crate::text::string_from_chars(value)) };
    if is(key, "grab") {
        o.grab = true;
    } else if is(key, "no-grab") {
        o.grab = false;
    } else if is(key, "ttyname") {
        o.ttyname = some();
    } else if is(key, "ttytype") {
        o.ttytype = some();
    } else if is(key, "ttyalert") {
        o.ttyalert = some();
    } else if is(key, "lc-ctype") {
        o.lc_ctype = some();
    } else if is(key, "lc-messages") {
        o.lc_messages = some();
    } else if is(key, "display") {
        o.display = some();
    } else if is(key, "owner") {
        o.owner = Some(Owner::parse_chars(value));
    } else if is(key, "parent-wid") {
        o.parent_wid = crate::text::parse_i64_chars(&crate::text::trimmed(value));
    } else if is(key, "touch-file") {
        o.touch_file = some();
    } else if is(key, "default-ok") {
        o.default_ok = some();
    } else if is(key, "default-cancel") {
        o.default_cancel = some();
    } else if is(key, "default-prompt") {
        o.default_prompt = some();
    } else if is(key, "default-pwmngr") {
        o.default_pwmngr = some();
    } else if is(key, "default-cf-visi") {
        o.default_cf_visi = some();
    } else if is(key, "default-tt-visi") {
        o.default_tt_visi = some();
    } else if is(key, "default-tt-hide") {
        o.default_tt_hide = some();
    } else if is(key, "default-capshint") {
        o.default_capshint = some();
    } else if is(key, "allow-external-password-cache") {
        o.allow_external_password_cache = true;
    } else if is(key, "invisible-char") {
        o.invisible_char = some();
    } else if is(key, "formatted-passphrase") {
        o.formatted_passphrase = true;
    } else if is(key, "formatted-passphrase-hint") {
        o.formatted_passphrase_hint = Some(decode_chars(value));
    } else if is(key, "constraints-enforce") {
        o.constraints_enforce = true;
    } else if is(key, "constraints-hint-short") {
        o.constraints_hint_short = Some(decode_chars(value));
    } else if is(key, "constraints-hint-long") {
        o.constraints_hint_long = Some(decode_chars(value));
    } else if is(key, "constraints-error-title") {
        o.constraints_error_title = Some(decode_chars(value));
    } else if is(key, "debug-wait") || is(key, "allow-emacs-prompt") {
        // Tolerated rather than rejected, as GnuPG's pinentry does.
    } else {
        return false;
    }
    true
}

/// Appends `UTF-8 of s`, or `-` when unset.
fn push_or_dash(out: &mut Vec<u8>, o: &Option<String>)
    ensures
        final(out)@ == old(out)@ + or_dash(opt_text(*o)),
{
    match o {
        Some(s) => crate::text::push_str(out, s.as_str()),
        None => out.push(45),
    }
}

fn write_getinfo(
    out: &mut Vec<u8>,
    o: &crate::assuan::state::Options,
    host: Option<HostInfo>,
    key: &[char],
    flavor: &str,
)
    ensures
        final(out)@ == old(out)@ + getinfo_reply(o@, host, key@, flavor@),
{
    let ghost start = out@;
    if is(key, "version") {
        write_data(out, VERSION.as_bytes());
        write_ok(out);
    } else if is(key, "pid") {
        match host {
            Some(h) => {
                let mut digits: Vec<u8> = Vec::new();
                crate::text::push_decimal(&mut digits, h.pid as u64);
                write_data(out, &digits);
                write_ok(out);
            },
            None => write_error(out, AssuanError::new(ASS_GENERAL, "Process information unavailable")),
        }
    } else if is(key, "flavor") {
        write_data(out, flavor.as_bytes());
        write_ok(out);
    } else if is(key, "ttyinfo") {
        match host {
            Some(h) => {
                let mut info: Vec<u8> = Vec::new();
                push_or_dash(&mut info, &o.ttyname);
                info.push(32);
                push_or_dash(&mut info, &o.ttytype);
                info.push(32);
                push_or_dash(&mut info, &o.display);
                info.push(32);
                info.push(45);
                info.push(32);
                crate::text::push_decimal(&mut info, h.euid as u64);
                info.push(47);
                crate::text::push_decimal(&mut info, h.egid as u64);
                info.push(32);
                info.push(45);
                proof {
                    assert(info@ =~= ttyinfo(o@, h));
                }
                write_data(out, &info);
                write_ok(out);
            },
            None => write_error(out, AssuanError::new(ASS_GENERAL, "Process information unavailable")),
        }
    } else {
        write_error(out, AssuanError::parameter());
    }
    proof {
        assert(out@ =~= start + getinfo_reply(o@, host, key@, flavor@));
    }
}

proof fn lemma_strip_eol_step(l: Seq<char>, j: int)
    requires
        0 < j <= l.len(),
        l[j - 1] == '\r' || l[j - 1] == '\n',
    ensures
        strip_eol(l.take(j)) == strip_eol(l.take(j - 1)),
{
    assert(l.take(j).drop_last() =~= l.take(j - 1));
}

/// The line without trailing CR and LF.
fn strip_eol_exec(l: &[char]) -> (r: Vec<char>)
    ensures
        r@ == strip_eol(l@),
{
    let mut j = l.len();
    proof {
        assert(l@.take(l@.len() as int) =~= l@);
    }
    while j > 0 && (l[j - 1] == '\r' || l[j - 1] == '\n')
        invariant
            j <= l@.len(),
            strip_eol(l@) == strip_eol(l@.take(j as int)),
        decreases j,
    {
        proof {
            lemma_strip_eol_step(l@, j as int);
        }
        j = j - 1;
    }
    crate::text::slice_of(l, 0, j)
}

fn split_line_exec(l: &[char]) -> (r: (Vec<char>, Vec<char>))
    ensures
        (r.0@, r.1@) == split_line(l@),
{
    match crate::text::split_once_char(l, ' ') {
        Some((c, r)) => (c, crate::text::trimmed_start(&r)),
        None => {
            let c = crate::text::slice_of(l, 0, l.len());
            proof {
                assert(c@ =~= l@);
            }
            (c, Vec::new())
        },
    }
}


/// Answers nothing in particular: a witness for lines that do not ask the
/// frontend anything.
pub open spec fn no_answers() -> Answers {
    Answers { pin: Err(AssuanError { code: 0, description: "" }), confirm: Ok(ConfirmOutcome::Confirmed), flavor: seq![] }
}

pub struct Server<B: Backend> {
    state: State,
    backend: B,
    finished: bool,
    host: Option<HostInfo>,
}

impl<B: Backend> Server<B> {
    pub closed spec fn spec_state(&self) -> StateModel {
        self.state@
    }

    pub closed spec fn spec_finished(&self) -> bool {
        self.finished
    }

    pub closed spec fn spec_host(&self) -> Option<HostInfo> {
        self.host
    }

    pub fn new(backend: B) -> (r: Self)
        ensures
            r.spec_backend() == backend,
            r.spec_state() == (StateModel {
                options: crate::assuan::state::initial_options(),
                request: empty_request(),
            }),
            !r.spec_finished(),
            r.spec_host() is None,
    {
        Self { state: State::new(), backend, finished: false, host: None }
    }

    pub fn with_state(backend: B, state: State) -> (r: Self)
        ensures
            r.spec_backend() == backend,
            r.spec_state() == state@,
            !r.spec_finished(),
            r.spec_host() is None,
    {
        Self { state, backend, finished: false, host: None }
    }

    /// Gives the facts that `GETINFO pid` and `GETINFO ttyinfo` report.
    pub fn set_host(&mut self, host: HostInfo)
        ensures
            final(self).spec_host() == Some(host),
            final(self).spec_state() == old(self).spec_state(),
            final(self).spec_finished() == old(self).spec_finished(),
    {
        self.host = Some(host);
    }

    pub fn state(&self) -> (r: &State)
        ensures
            r@ == self.spec_state(),
    {
        &self.state
    }

    pub closed spec fn spec_backend(&self) -> B {
        self.backend
    }

    pub fn backend(&self) -> (r: &B)
        ensures
            *r == self.spec_backend(),
    {
        &self.backend
    }

    /// Whether `BYE` has closed the connection.
    pub fn is_finished(&self) -> (r: bool)
        ensures
            r == self.spec_finished(),
    {
        self.finished
    }

    /// The greeting sent as soon as the connection opens.
    pub fn write_greeting(out: &mut Vec<u8>)
        ensures
            final(out)@ == old(out)@ + greeting(),
    {
        crate::text::push_str(out, "OK Pleased to meet you\n");
    }

    /// Handles one line of input, appending the response to `out`.
    pub fn handle_line(&mut self, line: &str, out: &mut Vec<u8>)
        ensures
            final(self).spec_host() == old(self).spec_host(),
            exists|a: Answers|
                {
                    let o = #[trigger] respond(
                        old(self).spec_state(),
                        old(self).spec_host(),
                        line@,
                        a,
                    );
                    &&& final(self).spec_state() == o.state
                    &&& final(out)@ == old(out)@ + o.out
                    &&& final(self).spec_finished() == (old(self).spec_finished() || o.bye)
                    &&& match line_command(line@) {
                        Some((Command::GetPin, _)) => exists|m: &mut B, s: State, r: Result<
                            PinResponse,
                            AssuanError,
                        >|
                            *m == old(self).spec_backend() && *final(m) == final(self).spec_backend() && s@ == old(self).spec_state()
                                && #[trigger] call_ensures(B::get_pin, (m, &s), r) && a.pin
                                == pin_result(r),
                        Some((Command::Confirm, rest)) => exists|m: &mut B, s: State, r: Result<
                            ConfirmOutcome,
                            AssuanError,
                        >|
                            *m == old(self).spec_backend() && *final(m) == final(self).spec_backend() && s@ == old(self).spec_state()
                                && #[trigger] call_ensures(
                                B::confirm,
                                (m, &s, parse_confirm_options(rest)),
                                r,
                            ) && a.confirm == r,
                        Some((Command::Message, _)) => exists|m: &mut B, s: State, r: Result<
                            ConfirmOutcome,
                            AssuanError,
                        >|
                            *m == old(self).spec_backend() && *final(m) == final(self).spec_backend() && s@ == old(self).spec_state()
                                && #[trigger] call_ensures(
                                B::confirm,
                                (m, &s, parse_confirm_options("--one-button"@)),
                                r,
                            ) && a.confirm == r,
                        Some((Command::GetInfo, _)) => final(self).spec_backend() == old(self).spec_backend() && exists|
                            f: &'static str,
                        |
                            #[trigger] call_ensures(B::flavor, (&old(self).spec_backend(),), f) && a.flavor
                                == f@,
                        _ => final(self).spec_backend() == old(self).spec_backend(),
                    }
                },
    {
        let chars = crate::text::str_chars(line);
        let ans = self.handle_chars(&chars, out);
        proof {
            assert(chars@ == line@);
            assert(final(self).backend == self.backend);
        }
    }

    fn handle_chars(&mut self, line: &[char], out: &mut Vec<u8>) -> (ans: Ghost<Answers>)
        ensures
            final(self).spec_host() == old(self).spec_host(),
            ({
                    let a = ans@;
                    let o = respond(old(self).spec_state(), old(self).spec_host(), line@, a);
                    &&& final(self).spec_state() == o.state
                    &&& final(out)@ == old(out)@ + o.out
                    &&& final(self).spec_finished() == (old(self).spec_finished() || o.bye)
                    &&& match line_command(line@) {
                        Some((Command::GetPin, _)) => exists|m: &mut B, s: State, r: Result<
                            PinResponse,
                            AssuanError,
                        >|
                            *m == old(self).spec_backend() && *final(m) == final(self).spec_backend() && s@ == old(self).spec_state()
                                && #[trigger] call_ensures(B::get_pin, (m, &s), r) && a.pin
                                == pin_result(r),
                        Some((Command::Confirm, rest)) => exists|m: &mut B, s: State, r: Result<
                            ConfirmOutcome,
                            AssuanError,
                        >|
                            *m == old(self).spec_backend() && *final(m) == final(self).spec_backend() && s@ == old(self).spec_state()
                                && #[trigger] call_ensures(
                                B::confirm,
                                (m, &s, parse_confirm_options(rest)),
                                r,
                            ) && a.confirm == r,
                        Some((Command::Message, _)) => exists|m: &mut B, s: State, r: Result<
                            ConfirmOutcome,
                            AssuanError,
                        >|
                            *m == old(self).spec_backend() && *final(m) == final(self).spec_backend() && s@ == old(self).spec_state()
                                && #[trigger] call_ensures(
                                B::confirm,
                                (m, &s, parse_confirm_options("--one-button"@)),
                                r,
                            ) && a.confirm == r,
                        Some((Command::GetInfo, _)) => final(self).spec_backend() == old(self).spec_backend() && exists|
                            f: &'static str,
                        |
                            #[trigger] call_ensures(B::flavor, (&old(self).spec_backend(),), f) && a.flavor
                                == f@,
                        _ => final(self).spec_backend() == old(self).spec_backend(),
                    }
                }),
    {
        let ghost st = self.state@;
        let ghost start = out@;
        let l = strip_eol_exec(line);
        if l.len() == 0 || l[0] == '#' {
            proof {
                assert(out@ =~= start + Seq::<u8>::empty());
                assert(respond(st, self.host, line@, no_answers()).out == Seq::<u8>::empty());
            }
            return Ghost(no_answers());
        }
        let (c, rest) = split_line_exec(&l);
        let upper = crate::text::upper(&c);
        let command = classify(&upper);
        proof {
            assert(respond(st, self.host, line@, no_answers()) == run_command(
                st,
                self.host,
                command,
                rest@,
                no_answers(),
            ));
        }
        match command {
            Command::GetPin => {
                let result = self.backend.get_pin(&self.state);
                self.state.request.clear_after_getpin();
                write_getpin_reply(out, &result);
                proof {
                    let a = Answers { pin: pin_result(result), ..no_answers() };
                    assert(respond(st, self.host, line@, a) == run_command(
                        st,
                        self.host,
                        command,
                        rest@,
                        a,
                    ));
                    assert(line_command(line@) == Some((command, rest@)));
                    assert(match line_command(line@) {
                        Some((Command::GetPin, _)) => exists|m: &mut B, s: State, r: Result<
                            PinResponse,
                            AssuanError,
                        >|
                            *m == old(self).spec_backend() && *final(m) == final(self).spec_backend() && s@ == old(self).spec_state()
                                && #[trigger] call_ensures(B::get_pin, (m, &s), r) && a.pin
                                == pin_result(r),
                        Some((Command::Confirm, rest)) => exists|m: &mut B, s: State, r: Result<
                            ConfirmOutcome,
                            AssuanError,
                        >|
                            *m == old(self).spec_backend() && *final(m) == final(self).spec_backend() && s@ == old(self).spec_state()
                                && #[trigger] call_ensures(
                                B::confirm,
                                (m, &s, parse_confirm_options(rest)),
                                r,
                            ) && a.confirm == r,
                        Some((Command::Message, _)) => exists|m: &mut B, s: State, r: Result<
                            ConfirmOutcome,
                            AssuanError,
                        >|
                            *m == old(self).spec_backend() && *final(m) == final(self).spec_backend() && s@ == old(self).spec_state()
                                && #[trigger] call_ensures(
                                B::confirm,
                                (m, &s, parse_confirm_options("--one-button"@)),
                                r,
                            ) && a.confirm == r,
                        Some((Command::GetInfo, _)) => final(self).spec_backend() == old(self).spec_backend() && exists|
                            f: &'static str,
                        |
                            #[trigger] call_ensures(B::flavor, (&old(self).spec_backend(),), f) && a.flavor
                                == f@,
                        _ => final(self).spec_backend() == old(self).spec_backend(),
                    });
                }
                Ghost(Answers { pin: pin_result(result), ..no_answers() })
            },
            Command::Confirm | Command::Message => {
                let options = match command {
                    Command::Confirm => ConfirmOptions::parse_chars(&rest),
                    _ => ConfirmOptions::parse("--one-button"),
                };
                let result = self.backend.confirm(&self.state, options);
                self.state.request.error = None;
                write_confirm_reply(out, options, &result);
                proof {
                    let a = Answers { confirm: result, ..no_answers() };
                    assert(respond(st, self.host, line@, a) == run_command(
                        st,
                        self.host,
                        command,
                        rest@,
                        a,
                    ));
                    assert(self.state@ =~= with_request(
                        st,
                        RequestModel { error: None, ..st.request },
                    ));
                    assert(line_command(line@) == Some((command, rest@)));
                    assert(match line_command(line@) {
                        Some((Command::GetPin, _)) => exists|m: &mut B, s: State, r: Result<
                            PinResponse,
                            AssuanError,
                        >|
                            *m == old(self).spec_backend() && *final(m) == final(self).spec_backend() && s@ == old(self).spec_state()
                                && #[trigger] call_ensures(B::get_pin, (m, &s), r) && a.pin
                                == pin_result(r),
                        Some((Command::Confirm, rest)) => exists|m: &mut B, s: State, r: Result<
                            ConfirmOutcome,
                            AssuanError,
                        >|
                            *m == old(self).spec_backend() && *final(m) == final(self).spec_backend() && s@ == old(self).spec_state()
                                && #[trigger] call_ensures(
                                B::confirm,
                                (m, &s, parse_confirm_options(rest)),
                                r,
                            ) && a.confirm == r,
                        Some((Command::Message, _)) => exists|m: &mut B, s: State, r: Result<
                            ConfirmOutcome,
                            AssuanError,
                        >|
                            *m == old(self).spec_backend() && *final(m) == final(self).spec_backend() && s@ == old(self).spec_state()
                                && #[trigger] call_ensures(
                                B::confirm,
                                (m, &s, parse_confirm_options("--one-button"@)),
                                r,
                            ) && a.confirm == r,
                        Some((Command::GetInfo, _)) => final(self).spec_backend() == old(self).spec_backend() && exists|
                            f: &'static str,
                        |
                            #[trigger] call_ensures(B::flavor, (&old(self).spec_backend(),), f) && a.flavor
                                == f@,
                        _ => final(self).spec_backend() == old(self).spec_backend(),
                    });
                }
                Ghost(Answers { confirm: result, ..no_answers() })
            },
            Command::GetInfo => {
                let key = crate::text::trimmed(&rest);
                let flavor = self.backend.flavor();
                write_getinfo(out, &self.state.options, self.host, &key, flavor);
                proof {
                    assert(old(self).spec_backend() == self.backend);
                    assert(call_ensures(B::flavor, (&old(self).spec_backend(),), flavor));
                    assert(line_command(line@) == Some((command, rest@)));
                    let a = Answers { flavor: flavor@, ..no_answers() };
                    assert(respond(st, self.host, line@, a) == run_command(
                        st,
                        self.host,
                        command,
                        rest@,
                        a,
                    ));
                    assert(match line_command(line@) {
                        Some((Command::GetPin, _)) => exists|m: &mut B, s: State, r: Result<
                            PinResponse,
                            AssuanError,
                        >|
                            *m == old(self).spec_backend() && *final(m) == final(self).spec_backend() && s@ == old(self).spec_state()
                                && #[trigger] call_ensures(B::get_pin, (m, &s), r) && a.pin
                                == pin_result(r),
                        Some((Command::Confirm, rest)) => exists|m: &mut B, s: State, r: Result<
                            ConfirmOutcome,
                            AssuanError,
                        >|
                            *m == old(self).spec_backend() && *final(m) == final(self).spec_backend() && s@ == old(self).spec_state()
                                && #[trigger] call_ensures(
                                B::confirm,
                                (m, &s, parse_confirm_options(rest)),
                                r,
                            ) && a.confirm == r,
                        Some((Command::Message, _)) => exists|m: &mut B, s: State, r: Result<
                            ConfirmOutcome,
                            AssuanError,
                        >|
                            *m == old(self).spec_backend() && *final(m) == final(self).spec_backend() && s@ == old(self).spec_state()
                                && #[trigger] call_ensures(
                                B::confirm,
                                (m, &s, parse_confirm_options("--one-button"@)),
                                r,
                            ) && a.confirm == r,
                        Some((Command::GetInfo, _)) => final(self).spec_backend() == old(self).spec_backend() && exists|
                            f: &'static str,
                        |
                            #[trigger] call_ensures(B::flavor, (&old(self).spec_backend(),), f) && a.flavor
                                == f@,
                        _ => final(self).spec_backend() == old(self).spec_backend(),
                    });
                }
                Ghost(Answers { flavor: flavor@, ..no_answers() })
            },
            _ => {
                self.run_plain(command, &rest, out);
                proof {
                    assert(line_command(line@) == Some((command, rest@)));
                    assert(match line_command(line@) {
                        Some((Command::GetPin, _)) => exists|m: &mut B, s: State, r: Result<
                            PinResponse,
                            AssuanError,
                        >|
                            *m == old(self).spec_backend() && *final(m) == final(self).spec_backend() && s@ == old(self).spec_state()
                                && #[trigger] call_ensures(B::get_pin, (m, &s), r) && no_answers().pin
                                == pin_result(r),
                        Some((Command::Confirm, rest)) => exists|m: &mut B, s: State, r: Result<
                            ConfirmOutcome,
                            AssuanError,
                        >|
                            *m == old(self).spec_backend() && *final(m) == final(self).spec_backend() && s@ == old(self).spec_state()
                                && #[trigger] call_ensures(
                                B::confirm,
                                (m, &s, parse_confirm_options(rest)),
                                r,
                            ) && no_answers().confirm == r,
                        Some((Command::Message, _)) => exists|m: &mut B, s: State, r: Result<
                            ConfirmOutcome,
                            AssuanError,
                        >|
                            *m == old(self).spec_backend() && *final(m) == final(self).spec_backend() && s@ == old(self).spec_state()
                                && #[trigger] call_ensures(
                                B::confirm,
                                (m, &s, parse_confirm_options("--one-button"@)),
                                r,
                            ) && no_answers().confirm == r,
                        Some((Command::GetInfo, _)) => final(self).spec_backend() == old(self).spec_backend() && exists|
                            f: &'static str,
                        |
                            #[trigger] call_ensures(B::flavor, (&old(self).spec_backend(),), f) && no_answers().flavor
                                == f@,
                        _ => final(self).spec_backend() == old(self).spec_backend(),
                    });
                }
                Ghost(no_answers())
            },
        }
    }

    /// The commands that the frontend plays no part in.
    fn run_plain(&mut self, command: Command, rest: &[char], out: &mut Vec<u8>)
        requires
            !(command is GetPin),
            !(command is Confirm),
            !(command is Message),
            !(command is GetInfo),
        ensures
            final(self).host == old(self).host,
            final(self).backend == old(self).backend,
            ({
                let o = run_command(old(self).state@, old(self).host, command, rest@, no_answers());
                &&& final(self).state@ == o.state
                &&& final(out)@ == old(out)@ + o.out
                &&& final(self).finished == (old(self).finished || o.bye)
            }),
    {
        let ghost st = self.state@;
        let ghost start = out@;
        match command {
            Command::Bye => {
                self.finished = true;
                crate::text::push_str(out, "OK closing connection\n");
            },
            Command::Reset => {
                self.state.reset();
                write_ok(out);
            },
            Command::Nop | Command::End | Command::ClearPassphrase => {
                // No external password cache, so nothing to clear; OK keeps
                // gpg-agent happy.
                write_ok(out);
            },
            Command::Cancel => write_error(out, AssuanError::canceled()),
            Command::Option => {
                let (key, value) = option_key_value_exec(rest);
                if apply_option_exec(&mut self.state.options, &key, &value) {
                    write_ok(out);
                } else {
                    write_error(out, AssuanError::parameter());
                }
            },
            Command::SetText(f) => {
                let value = decode_chars(rest);
                let v = if value.as_str().is_empty() {
                    None
                } else {
                    Some(value)
                };
                set_request_field(&mut self.state.request, f, v);
                write_ok(out);
            },
            Command::SetKeyInfo => {
                // Empty or `--clear` means "no stable identifier".
                self.state.request.keyinfo = if rest.len() == 0 || is(rest, "--clear") {
                    None
                } else {
                    Some(crate::text::string_from_chars(rest))
                };
                write_ok(out);
            },
            Command::SetQualityBar => {
                let label = if rest.len() == 0 {
                    crate::text::string_from_chars(&crate::text::str_chars("Quality:"))
                } else {
                    decode_chars(rest)
                };
                self.state.request.quality_bar = Some(label);
                write_ok(out);
            },
            Command::SetTimeout => {
                match crate::text::parse_u32_chars(&crate::text::trimmed(rest)) {
                    Some(secs) => self.state.options.timeout_secs = secs,
                    None => {},
                }
                write_ok(out);
            },
            _ => {
                write_error(out, AssuanError::unknown_command());
            },
        }
        proof {
            let o = run_command(st, self.host, command, rest@, no_answers());
            assert(self.state@ =~= o.state);
        }
    }
}


/// The lines of an input, as `BufRead::lines` yields them: split at each line
/// feed, with no empty line after a final line feed.
pub open spec fn input_lines(s: Seq<char>) -> Seq<Seq<char>>
    decreases s.len(),
{
    match find(s, '\n') {
        Some(i) => {
            proof {
                crate::text::lemma_find_bounds(s, '\n');
            }
            seq![s.take(i)] + input_lines(s.skip(i + 1))
        },
        None => if s.len() == 0 {
            seq![]
        } else {
            seq![s]
        },
    }
}

/// A session's effect: each line in turn, until one finishes the
/// connection; the first line is always read. `a[i]` is what the frontend
/// answered during line `i`.
pub open spec fn session(st: StateModel, host: Option<HostInfo>, fin: bool, lines: Seq<Seq<char>>, a: Seq<Answers>) -> (StateModel, Seq<u8>, bool)
    decreases lines.len(),
{
    if lines.len() == 0 {
        (st, seq![], fin)
    } else {
        let n = lines.len() - 1;
        let prev = session(st, host, fin, lines.take(n), a);
        if n > 0 && prev.2 {
            prev
        } else {
            let o = respond(prev.0, host, lines[n], a[n]);
            (o.state, prev.1 + o.out, prev.2 || o.bye)
        }
    }
}

/// Once the connection is finished, further lines change nothing: a line
/// after `BYE` is never read.
pub proof fn lemma_session_stops(st: StateModel, host: Option<HostInfo>, fin: bool, lines: Seq<Seq<char>>, a: Seq<Answers>, k: int)
    requires
        1 <= k <= lines.len(),
        session(st, host, fin, lines.take(k), a).2,
    ensures
        session(st, host, fin, lines, a) == session(st, host, fin, lines.take(k), a),
    decreases lines.len(),
{
    if lines.len() == k {
        assert(lines.take(k) =~= lines);
    } else {
        let n = lines.len() - 1;
        assert(lines.take(n).take(k) =~= lines.take(k));
        lemma_session_stops(st, host, fin, lines.take(n), a, k);
    }
}


pub open spec fn views(v: Seq<Vec<char>>) -> Seq<Seq<char>> {
    v.map_values(|l: Vec<char>| l@)
}

/// Splits an input into its lines.
pub fn split_lines(v: &[char]) -> (r: Vec<Vec<char>>)
    ensures
        views(r@) == input_lines(v@),
{
    let mut lines: Vec<Vec<char>> = Vec::new();
    let mut rest = crate::text::slice_of(v, 0, v.len());
    proof {
        assert(rest@ =~= v@);
        assert(views(lines@) + input_lines(rest@) =~= input_lines(v@));
    }
    loop
        invariant
            views(lines@) + input_lines(rest@) == input_lines(v@),
        decreases rest@.len(),
    {
        match crate::text::find_char(&rest, '\n') {
            Some(i) => {
                proof {
                    crate::text::lemma_find_bounds(rest@, '\n');
                }
                let n = rest.len();
                assert(i < n);
                let line = crate::text::slice_of(&rest, 0, i);
                let next = crate::text::slice_of(&rest, i + 1, n);
                let ghost before = views(lines@);
                proof {
                    assert(input_lines(rest@) == seq![rest@.take(i as int)] + input_lines(
                        rest@.skip(i + 1),
                    ));
                    assert(line@ =~= rest@.take(i as int));
                    assert(next@ =~= rest@.skip(i + 1));
                }
                lines.push(line);
                proof {
                    assert(views(lines@) =~= before + seq![line@]);
                }
                rest = next;
            },
            None => {
                if rest.len() > 0 {
                    let ghost before = views(lines@);
                    let last = crate::text::slice_of(&rest, 0, rest.len());
                    proof {
                        assert(last@ =~= rest@);
                    }
                    lines.push(last);
                    proof {
                        assert(views(lines@) =~= before + seq![last@]);
                    }
                } else {
                    proof {
                        assert(views(lines@) + Seq::<Seq<char>>::empty() =~= views(lines@));
                    }
                }
                proof {
                    assert(views(lines@) =~= input_lines(v@));
                }
                return lines;
            },
        }
    }
}

impl<B: Backend> Server<B> {
    /// Greets, then handles the lines of `input` until one closes the
    /// connection, appending everything sent back to `out`. The frontend is
    /// asked only by the lines handled, in order: `bs` is the frontend before
    /// each of the `k` handled lines and after the last, and each line's
    /// answers are what its call on the frontend returned.
    #[verifier::rlimit(100)]
    #[verifier::spinoff_prover]
    pub fn run(&mut self, input: &str, out: &mut Vec<u8>)
        ensures
            final(self).spec_host() == old(self).spec_host(),
            exists|a: Seq<Answers>, bs: Seq<B>, k: int|
                #![trigger session(old(self).spec_state(), old(self).spec_host(), old(self).spec_finished(), input_lines(input@).take(k), a), bs.len()]
                {
                    let lines = input_lines(input@);
                    let r = session(
                        old(self).spec_state(),
                        old(self).spec_host(),
                        old(self).spec_finished(),
                        lines.take(k),
                        a,
                    );
                    &&& 0 <= k <= lines.len()
                    &&& r == session(
                        old(self).spec_state(),
                        old(self).spec_host(),
                        old(self).spec_finished(),
                        lines,
                        a,
                    )
                    &&& final(self).spec_state() == r.0
                    &&& final(out)@ == old(out)@ + greeting() + r.1
                    &&& final(self).spec_finished() == r.2
                    &&& k < lines.len() ==> k > 0 && r.2
                    &&& bs.len() == k + 1
                    &&& bs[0] == old(self).spec_backend()
                    &&& bs[k] == final(self).spec_backend()
                    &&& forall|i: int|
                        #![trigger input_lines(input@)[i]]
                        0 <= i < k ==> match line_command(input_lines(input@)[i]) {
                            Some((Command::GetPin, _)) => exists|m: &mut B, s: State, r: Result<PinResponse, AssuanError>|
                                mut_ref_current(m) == bs[i] && mut_ref_future(m) == bs[i + 1] && s@ == session(old(self).spec_state(), old(self).spec_host(), old(self).spec_finished(), input_lines(input@).take(i), a).0
                                    && #[trigger] call_ensures(B::get_pin, (m, &s), r) && a[i].pin == pin_result(r),
                            Some((Command::Confirm, rest)) => exists|m: &mut B, s: State, r: Result<ConfirmOutcome, AssuanError>|
                                mut_ref_current(m) == bs[i] && mut_ref_future(m) == bs[i + 1] && s@ == session(old(self).spec_state(), old(self).spec_host(), old(self).spec_finished(), input_lines(input@).take(i), a).0
                                    && #[trigger] call_ensures(B::confirm, (m, &s, parse_confirm_options(rest)), r)
                                    && a[i].confirm == r,
                            Some((Command::Message, _)) => exists|m: &mut B, s: State, r: Result<ConfirmOutcome, AssuanError>|
                                mut_ref_current(m) == bs[i] && mut_ref_future(m) == bs[i + 1] && s@ == session(old(self).spec_state(), old(self).spec_host(), old(self).spec_finished(), input_lines(input@).take(i), a).0
                                    && #[trigger] call_ensures(B::confirm, (m, &s, parse_confirm_options("--one-button"@)), r)
                                    && a[i].confirm == r,
                            Some((Command::GetInfo, _)) => bs[i + 1] == bs[i] && exists|f: &'static str|
                                #[trigger] call_ensures(B::flavor, (&bs[i],), f) && a[i].flavor == f@,
                            _ => bs[i + 1] == bs[i],
                        }
                },
    {
        let ghost st0 = self.state@;
        let ghost fin0 = self.finished;
        let ghost host = self.host;
        let ghost be0 = self.backend;
        Self::write_greeting(out);
        let ghost base = out@;
        let chars = crate::text::str_chars(input);
        let lines = split_lines(&chars);
        let ghost all = views(lines@);
        let ghost mut answers: Seq<Answers> = Seq::empty();
        let ghost mut bs: Seq<B> = seq![self.backend];
        let mut i: usize = 0;
        proof {
            assert(all.take(0) =~= Seq::<Seq<char>>::empty());
        }
        while i < lines.len()
            invariant
                all == views(lines@),
                all == input_lines(input@),
                i <= lines@.len(),
                answers.len() == i,
                bs.len() == i + 1,
                bs[0] == be0,
                bs[i as int] == self.backend,
                be0 == old(self).backend,
                self.host == host,
                i == 0 ==> self.finished == fin0,
                i > 0 ==> !self.finished,
                session(st0, host, fin0, all.take(i as int), answers) == (
                    self.state@,
                    out@.skip(base.len() as int),
                    self.finished,
                ),
                out@.len() >= base.len(),
                out@.take(base.len() as int) == base,
                base == old(out)@ + greeting(),
                host == old(self).host,
                st0 == old(self).state@,
                fin0 == old(self).finished,
                forall|j: int|
                    #![trigger all[j]]
                    0 <= j < i ==> match line_command(all[j]) {
                        Some((Command::GetPin, _)) => exists|m: &mut B, s: State, r: Result<PinResponse, AssuanError>|
                            mut_ref_current(m) == bs[j] && mut_ref_future(m) == bs[j + 1] && s@ == session(st0, host, fin0, all.take(j), answers).0
                                && #[trigger] call_ensures(B::get_pin, (m, &s), r) && answers[j].pin == pin_result(r),
                        Some((Command::Confirm, rest)) => exists|m: &mut B, s: State, r: Result<ConfirmOutcome, AssuanError>|
                            mut_ref_current(m) == bs[j] && mut_ref_future(m) == bs[j + 1] && s@ == session(st0, host, fin0, all.take(j), answers).0
                                && #[trigger] call_ensures(B::confirm, (m, &s, parse_confirm_options(rest)), r)
                                && answers[j].confirm == r,
                        Some((Command::Message, _)) => exists|m: &mut B, s: State, r: Result<ConfirmOutcome, AssuanError>|
                            mut_ref_current(m) == bs[j] && mut_ref_future(m) == bs[j + 1] && s@ == session(st0, host, fin0, all.take(j), answers).0
                                && #[trigger] call_ensures(B::confirm, (m, &s, parse_confirm_options("--one-button"@)), r)
                                && answers[j].confirm == r,
                        Some((Command::GetInfo, _)) => bs[j + 1] == bs[j] && exists|f: &'static str|
                            #[trigger] call_ensures(B::flavor, (&bs[j],), f) && answers[j].flavor == f@,
                        _ => bs[j + 1] == bs[j],
                    },
            decreases lines@.len() - i,
        {
            let ghost before_out = out@;
            let ghost before_state = self.state@;
            let ghost before_fin = self.finished;
            let ghost be_before = self.backend;
            let ans = self.handle_chars(&lines[i], out);
            let ghost a = ans@;
            proof {
                let o = respond(before_state, host, lines@[i as int]@, a);
                assert(all[i as int] == lines@[i as int]@);
                let next = answers.push(a);
                let t = all.take(i + 1);
                assert(t.take(i as int) =~= all.take(i as int));
                assert(t[i as int] == all[i as int]);
                lemma_session_answer_prefix(st0, host, fin0, all.take(i as int), answers, next);
                assert(out@.skip(base.len() as int) =~= before_out.skip(base.len() as int) + o.out);
                assert(out@.take(base.len() as int) =~= base);
                assert(bs[i as int] == be_before);
                assert(match line_command(all[i as int]) {
                    Some((Command::GetPin, _)) => exists|m: &mut B, s: State, r: Result<PinResponse, AssuanError>|
                        mut_ref_current(m) == bs[i as int] && mut_ref_future(m) == self.backend && s@ == session(st0, host, fin0, all.take(i as int), answers).0
                            && #[trigger] call_ensures(B::get_pin, (m, &s), r) && a.pin == pin_result(r),
                    Some((Command::Confirm, rest)) => exists|m: &mut B, s: State, r: Result<ConfirmOutcome, AssuanError>|
                        mut_ref_current(m) == bs[i as int] && mut_ref_future(m) == self.backend && s@ == session(st0, host, fin0, all.take(i as int), answers).0
                            && #[trigger] call_ensures(B::confirm, (m, &s, parse_confirm_options(rest)), r)
                            && a.confirm == r,
                    Some((Command::Message, _)) => exists|m: &mut B, s: State, r: Result<ConfirmOutcome, AssuanError>|
                        mut_ref_current(m) == bs[i as int] && mut_ref_future(m) == self.backend && s@ == session(st0, host, fin0, all.take(i as int), answers).0
                            && #[trigger] call_ensures(B::confirm, (m, &s, parse_confirm_options("--one-button"@)), r)
                            && a.confirm == r,
                    Some((Command::GetInfo, _)) => self.backend == bs[i as int] && exists|f: &'static str|
                        #[trigger] call_ensures(B::flavor, (&bs[i as int],), f) && a.flavor == f@,
                    _ => self.backend == bs[i as int],
                });
                lemma_ties_extend(st0, host, fin0, all, answers, bs, a, self.backend);
                answers = next;
                bs = bs.push(self.backend);
            }
            if self.finished {
                proof {
                    let full = answers + Seq::new((all.len() - answers.len()) as nat, |k: int| no_answers());
                    let k = i + 1;
                    lemma_session_answer_prefix(st0, host, fin0, all.take(k), answers, full);
                    lemma_session_stops(st0, host, fin0, all, full, k);
                    assert forall|j: int| 0 <= j < k implies #[trigger] full[j] == answers[j] by {}
                    assert(out@ =~= base + out@.skip(base.len() as int));
                    lemma_ties_pad(st0, host, fin0, all, answers, bs, full);
                    assert(session(st0, host, fin0, all.take(k), full) == session(st0, host, fin0, all, full));
                    assert(bs.len() == k + 1);
                    assert(st0 == old(self).spec_state());
                    assert(host == old(self).spec_host());
                    assert(fin0 == old(self).spec_finished());
                    assert(all == input_lines(input@));
                    assert(be0 == old(self).spec_backend());
                    assert(bs[k] == self.spec_backend());
                    assert(self.spec_state() == session(st0, host, fin0, all.take(k), full).0);
                    assert(out@ == old(out)@ + greeting() + session(st0, host, fin0, all.take(k), full).1);
                    assert(self.spec_finished() == session(st0, host, fin0, all.take(k), full).2);
                }
                return ;
            }
            i = i + 1;
        }
        proof {
            assert(all.take(i as int) =~= all);
            assert(out@ =~= base + out@.skip(base.len() as int));
            assert(session(st0, host, fin0, all.take(i as int), answers) == session(st0, host, fin0, all, answers));
            assert(bs.len() == i + 1);
            assert(st0 == old(self).spec_state());
            assert(host == old(self).spec_host());
            assert(fin0 == old(self).spec_finished());
            assert(all == input_lines(input@));
            assert(be0 == old(self).spec_backend());
            assert(bs[i as int] == self.spec_backend());
            assert(self.spec_state() == session(st0, host, fin0, all.take(i as int), answers).0);
            assert(out@ == old(out)@ + greeting() + session(st0, host, fin0, all.take(i as int), answers).1);
            assert(self.spec_finished() == session(st0, host, fin0, all.take(i as int), answers).2);
        }
    }
}

/// The frontend calls of the lines handled so far, extended by one more.
proof fn lemma_ties_extend<B: Backend>(
    st0: StateModel,
    host: Option<HostInfo>,
    fin0: bool,
    all: Seq<Seq<char>>,
    answers: Seq<Answers>,
    bs: Seq<B>,
    a: Answers,
    after: B,
)
    requires
        answers.len() < all.len(),
        bs.len() == answers.len() + 1,
        forall|j: int|
            #![trigger all[j]]
            0 <= j < answers.len() ==> match line_command(all[j]) {
                Some((Command::GetPin, _)) => exists|m: &mut B, s: State, r: Result<PinResponse, AssuanError>|
                    mut_ref_current(m) == bs[j] && mut_ref_future(m) == bs[j + 1] && s@ == session(st0, host, fin0, all.take(j), answers).0
                        && #[trigger] call_ensures(B::get_pin, (m, &s), r) && answers[j].pin == pin_result(r),
                Some((Command::Confirm, rest)) => exists|m: &mut B, s: State, r: Result<ConfirmOutcome, AssuanError>|
                    mut_ref_current(m) == bs[j] && mut_ref_future(m) == bs[j + 1] && s@ == session(st0, host, fin0, all.take(j), answers).0
                        && #[trigger] call_ensures(B::confirm, (m, &s, parse_confirm_options(rest)), r)
                        && answers[j].confirm == r,
                Some((Command::Message, _)) => exists|m: &mut B, s: State, r: Result<ConfirmOutcome, AssuanError>|
                    mut_ref_current(m) == bs[j] && mut_ref_future(m) == bs[j + 1] && s@ == session(st0, host, fin0, all.take(j), answers).0
                        && #[trigger] call_ensures(B::confirm, (m, &s, parse_confirm_options("--one-button"@)), r)
                        && answers[j].confirm == r,
                Some((Command::GetInfo, _)) => bs[j + 1] == bs[j] && exists|f: &'static str|
                    #[trigger] call_ensures(B::flavor, (&bs[j],), f) && answers[j].flavor == f@,
                _ => bs[j + 1] == bs[j],
            },
        match line_command(all[answers.len() as int]) {
            Some((Command::GetPin, _)) => exists|m: &mut B, s: State, r: Result<PinResponse, AssuanError>|
                mut_ref_current(m) == bs[answers.len() as int] && mut_ref_future(m) == after && s@ == session(st0, host, fin0, all.take(answers.len() as int), answers).0
                    && #[trigger] call_ensures(B::get_pin, (m, &s), r) && a.pin == pin_result(r),
            Some((Command::Confirm, rest)) => exists|m: &mut B, s: State, r: Result<ConfirmOutcome, AssuanError>|
                mut_ref_current(m) == bs[answers.len() as int] && mut_ref_future(m) == after && s@ == session(st0, host, fin0, all.take(answers.len() as int), answers).0
                    && #[trigger] call_ensures(B::confirm, (m, &s, parse_confirm_options(rest)), r)
                    && a.confirm == r,
            Some((Command::Message, _)) => exists|m: &mut B, s: State, r: Result<ConfirmOutcome, AssuanError>|
                mut_ref_current(m) == bs[answers.len() as int] && mut_ref_future(m) == after && s@ == session(st0, host, fin0, all.take(answers.len() as int), answers).0
                    && #[trigger] call_ensures(B::confirm, (m, &s, parse_confirm_options("--one-button"@)), r)
                    && a.confirm == r,
            Some((Command::GetInfo, _)) => after == bs[answers.len() as int] && exists|f: &'static str|
                #[trigger] call_ensures(B::flavor, (&bs[answers.len() as int],), f) && a.flavor == f@,
            _ => after == bs[answers.len() as int],
        },
    ensures
        forall|j: int|
            #![trigger all[j]]
            0 <= j <= answers.len() ==> match line_command(all[j]) {
                Some((Command::GetPin, _)) => exists|m: &mut B, s: State, r: Result<PinResponse, AssuanError>|
                    mut_ref_current(m) == bs.push(after)[j] && mut_ref_future(m) == bs.push(after)[j + 1] && s@ == session(st0, host, fin0, all.take(j), answers.push(a)).0
                        && #[trigger] call_ensures(B::get_pin, (m, &s), r) && answers.push(a)[j].pin == pin_result(r),
                Some((Command::Confirm, rest)) => exists|m: &mut B, s: State, r: Result<ConfirmOutcome, AssuanError>|
                    mut_ref_current(m) == bs.push(after)[j] && mut_ref_future(m) == bs.push(after)[j + 1] && s@ == session(st0, host, fin0, all.take(j), answers.push(a)).0
                        && #[trigger] call_ensures(B::confirm, (m, &s, parse_confirm_options(rest)), r)
                        && answers.push(a)[j].confirm == r,
                Some((Command::Message, _)) => exists|m: &mut B, s: State, r: Result<ConfirmOutcome, AssuanError>|
                    mut_ref_current(m) == bs.push(after)[j] && mut_ref_future(m) == bs.push(after)[j + 1] && s@ == session(st0, host, fin0, all.take(j), answers.push(a)).0
                        && #[trigger] call_ensures(B::confirm, (m, &s, parse_confirm_options("--one-button"@)), r)
                        && answers.push(a)[j].confirm == r,
                Some((Command::GetInfo, _)) => bs.push(after)[j + 1] == bs.push(after)[j] && exists|f: &'static str|
                    #[trigger] call_ensures(B::flavor, (&bs.push(after)[j],), f) && answers.push(a)[j].flavor == f@,
                _ => bs.push(after)[j + 1] == bs.push(after)[j],
            },
{
    let i = answers.len() as int;
    let next = answers.push(a);
    let nbs = bs.push(after);
    assert forall|j: int| #![trigger all[j]] 0 <= j <= i implies match line_command(all[j]) {
            Some((Command::GetPin, _)) => exists|m: &mut B, s: State, r: Result<PinResponse, AssuanError>|
                mut_ref_current(m) == nbs[j] && mut_ref_future(m) == nbs[j + 1] && s@ == session(st0, host, fin0, all.take(j), next).0
                    && #[trigger] call_ensures(B::get_pin, (m, &s), r) && next[j].pin == pin_result(r),
            Some((Command::Confirm, rest)) => exists|m: &mut B, s: State, r: Result<ConfirmOutcome, AssuanError>|
                mut_ref_current(m) == nbs[j] && mut_ref_future(m) == nbs[j + 1] && s@ == session(st0, host, fin0, all.take(j), next).0
                    && #[trigger] call_ensures(B::confirm, (m, &s, parse_confirm_options(rest)), r)
                    && next[j].confirm == r,
            Some((Command::Message, _)) => exists|m: &mut B, s: State, r: Result<ConfirmOutcome, AssuanError>|
                mut_ref_current(m) == nbs[j] && mut_ref_future(m) == nbs[j + 1] && s@ == session(st0, host, fin0, all.take(j), next).0
                    && #[trigger] call_ensures(B::confirm, (m, &s, parse_confirm_options("--one-button"@)), r)
                    && next[j].confirm == r,
            Some((Command::GetInfo, _)) => nbs[j + 1] == nbs[j] && exists|f: &'static str|
                #[trigger] call_ensures(B::flavor, (&nbs[j],), f) && next[j].flavor == f@,
            _ => nbs[j + 1] == nbs[j],
        } by {
        lemma_session_answer_prefix(st0, host, fin0, all.take(j), answers, next);
        assert(nbs[j] == bs[j]);
        if j < i {
            assert(next[j] == answers[j]);
            assert(nbs[j + 1] == bs[j + 1]);
        } else {
            assert(next[j] == a);
            assert(nbs[j + 1] == after);
        }
    }
}

/// The frontend calls of the lines handled hold whatever answers are given
/// for the lines never read.
proof fn lemma_ties_pad<B: Backend>(
    st0: StateModel,
    host: Option<HostInfo>,
    fin0: bool,
    all: Seq<Seq<char>>,
    answers: Seq<Answers>,
    bs: Seq<B>,
    full: Seq<Answers>,
)
    requires
        answers.len() <= all.len(),
        full.len() >= answers.len(),
        forall|j: int| 0 <= j < answers.len() ==> #[trigger] full[j] == answers[j],
        forall|j: int|
            #![trigger all[j]]
            0 <= j < answers.len() ==> match line_command(all[j]) {
                Some((Command::GetPin, _)) => exists|m: &mut B, s: State, r: Result<PinResponse, AssuanError>|
                    mut_ref_current(m) == bs[j] && mut_ref_future(m) == bs[j + 1] && s@ == session(st0, host, fin0, all.take(j), answers).0
                        && #[trigger] call_ensures(B::get_pin, (m, &s), r) && answers[j].pin == pin_result(r),
                Some((Command::Confirm, rest)) => exists|m: &mut B, s: State, r: Result<ConfirmOutcome, AssuanError>|
                    mut_ref_current(m) == bs[j] && mut_ref_future(m) == bs[j + 1] && s@ == session(st0, host, fin0, all.take(j), answers).0
                        && #[trigger] call_ensures(B::confirm, (m, &s, parse_confirm_options(rest)), r)
                        && answers[j].confirm == r,
                Some((Command::Message, _)) => exists|m: &mut B, s: State, r: Result<ConfirmOutcome, AssuanError>|
                    mut_ref_current(m) == bs[j] && mut_ref_future(m) == bs[j + 1] && s@ == session(st0, host, fin0, all.take(j), answers).0
                        && #[trigger] call_ensures(B::confirm, (m, &s, parse_confirm_options("--one-button"@)), r)
                        && answers[j].confirm == r,
                Some((Command::GetInfo, _)) => bs[j + 1] == bs[j] && exists|f: &'static str|
                    #[trigger] call_ensures(B::flavor, (&bs[j],), f) && answers[j].flavor == f@,
                _ => bs[j + 1] == bs[j],
            },
    ensures
        forall|j: int|
            #![trigger all[j]]
            0 <= j < answers.len() ==> match line_command(all[j]) {
                Some((Command::GetPin, _)) => exists|m: &mut B, s: State, r: Result<PinResponse, AssuanError>|
                    mut_ref_current(m) == bs[j] && mut_ref_future(m) == bs[j + 1] && s@ == session(st0, host, fin0, all.take(j), full).0
                        && #[trigger] call_ensures(B::get_pin, (m, &s), r) && full[j].pin == pin_result(r),
                Some((Command::Confirm, rest)) => exists|m: &mut B, s: State, r: Result<ConfirmOutcome, AssuanError>|
                    mut_ref_current(m) == bs[j] && mut_ref_future(m) == bs[j + 1] && s@ == session(st0, host, fin0, all.take(j), full).0
                        && #[trigger] call_ensures(B::confirm, (m, &s, parse_confirm_options(rest)), r)
                        && full[j].confirm == r,
                Some((Command::Message, _)) => exists|m: &mut B, s: State, r: Result<ConfirmOutcome, AssuanError>|
                    mut_ref_current(m) == bs[j] && mut_ref_future(m) == bs[j + 1] && s@ == session(st0, host, fin0, all.take(j), full).0
                        && #[trigger] call_ensures(B::confirm, (m, &s, parse_confirm_options("--one-button"@)), r)
                        && full[j].confirm == r,
                Some((Command::GetInfo, _)) => bs[j + 1] == bs[j] && exists|f: &'static str|
                    #[trigger] call_ensures(B::flavor, (&bs[j],), f) && full[j].flavor == f@,
                _ => bs[j + 1] == bs[j],
            },
{
    assert forall|j: int| #![trigger all[j]] 0 <= j < answers.len() implies match line_command(all[j]) {
            Some((Command::GetPin, _)) => exists|m: &mut B, s: State, r: Result<PinResponse, AssuanError>|
                mut_ref_current(m) == bs[j] && mut_ref_future(m) == bs[j + 1] && s@ == session(st0, host, fin0, all.take(j), full).0
                    && #[trigger] call_ensures(B::get_pin, (m, &s), r) && full[j].pin == pin_result(r),
            Some((Command::Confirm, rest)) => exists|m: &mut B, s: State, r: Result<ConfirmOutcome, AssuanError>|
                mut_ref_current(m) == bs[j] && mut_ref_future(m) == bs[j + 1] && s@ == session(st0, host, fin0, all.take(j), full).0
                    && #[trigger] call_ensures(B::confirm, (m, &s, parse_confirm_options(rest)), r)
                    && full[j].confirm == r,
            Some((Command::Message, _)) => exists|m: &mut B, s: State, r: Result<ConfirmOutcome, AssuanError>|
                mut_ref_current(m) == bs[j] && mut_ref_future(m) == bs[j + 1] && s@ == session(st0, host, fin0, all.take(j), full).0
                    && #[trigger] call_ensures(B::confirm, (m, &s, parse_confirm_options("--one-button"@)), r)
                    && full[j].confirm == r,
            Some((Command::GetInfo, _)) => bs[j + 1] == bs[j] && exists|f: &'static str|
                #[trigger] call_ensures(B::flavor, (&bs[j],), f) && full[j].flavor == f@,
            _ => bs[j + 1] == bs[j],
        } by {
        assert(full[j] == answers[j]);
        lemma_session_answer_prefix(st0, host, fin0, all.take(j), answers, full);
    }
}

/// Answers beyond the lines read are never consulted.
pub proof fn lemma_session_answer_prefix(st: StateModel, host: Option<HostInfo>, fin: bool, lines: Seq<Seq<char>>, a: Seq<Answers>, b: Seq<Answers>)
    requires
        a.len() >= lines.len(),
        b.len() >= lines.len(),
        forall|i: int| 0 <= i < lines.len() ==> a[i] == b[i],
    ensures
        session(st, host, fin, lines, a) == session(st, host, fin, lines, b),
    decreases lines.len(),
{
    if lines.len() > 0 {
        let n = lines.len() - 1;
        lemma_session_answer_prefix(st, host, fin, lines.take(n), a, b);
        assert(a[n] == b[n]);
    }
}


/// No character of `c` is a space, a carriage return or a line feed.
pub open spec fn is_word(c: Seq<char>) -> bool {
    forall|i: int| 0 <= i < c.len() ==> #[trigger] c[i] != ' ' && c[i] != '\r' && c[i] != '\n'
}

pub(crate) proof fn lemma_strip_eol_concat(x: Seq<char>, y: Seq<char>)
    requires
        is_word(x),
        y.len() == 0 || y[0] == ' ',
    ensures
        strip_eol(x + y) == x + strip_eol(y),
        y.len() == 0 ==> strip_eol(y) == y,
        y.len() > 0 ==> strip_eol(y).len() > 0 && strip_eol(y)[0] == ' ',
    decreases y.len(),
{
    if y.len() == 0 {
        assert(x + y =~= x);
        if x.len() > 0 {
            assert(x[x.len() - 1] != '\r' && x[x.len() - 1] != '\n');
        }
    } else if y.last() == '\r' || y.last() == '\n' {
        assert(y.len() > 1);
        assert((x + y).drop_last() =~= x + y.drop_last());
        lemma_strip_eol_concat(x, y.drop_last());
    } else {
        assert((x + y).last() == y.last());
    }
}

proof fn lemma_find_concat(x: Seq<char>, y: Seq<char>)
    requires
        is_word(x),
    ensures
        find(x + y, ' ') == (match find(y, ' ') {
            Some(i) => Some(i + x.len()),
            None => None::<int>,
        }),
    decreases x.len(),
{
    if x.len() == 0 {
        assert(x + y =~= y);
    } else {
        assert((x + y)[0] == x[0]);
        assert((x + y).drop_first() =~= x.drop_first() + y);
        assert(is_word(x.drop_first())) by {
            assert forall|i: int| 0 <= i < x.drop_first().len() implies #[trigger] x.drop_first()[i]
                != ' ' && x.drop_first()[i] != '\r' && x.drop_first()[i] != '\n' by {
                assert(x.drop_first()[i] == x[i + 1]);
            }
        }
        lemma_find_concat(x.drop_first(), y);
    }
}

pub(crate) proof fn lemma_split_word(c: Seq<char>, s: Seq<char>)
    requires
        is_word(c),
        s.len() == 0 || s[0] == ' ',
    ensures
        split_line(c + s) == (c, if s.len() == 0 {
            seq![]
        } else {
            trim_start(s.skip(1))
        }),
{
    lemma_find_concat(c, s);
    if s.len() == 0 {
        crate::text::lemma_find_bounds(s, ' ');
        assert(c + s =~= c);
    } else {
        assert(find(s, ' ') == Some(0int));
        assert((c + s).take(c.len() as int) =~= c);
        assert((c + s).skip(c.len() + 1int) =~= s.skip(1));
    }
}

proof fn lemma_upper_first(c: Seq<char>)
    requires
        c.len() > 0,
    ensures
        ascii_upper(c)[0] == crate::text::upper_char(c[0]),
        (ascii_upper(c)[0] == '#') == (c[0] == '#'),
{
}

/// Commands are case-insensitive, as in libassuan: two lines that differ only
/// in the case of their command word have the same effect.
pub proof fn law_commands_are_case_insensitive(
    st: StateModel,
    host: Option<HostInfo>,
    c1: Seq<char>,
    c2: Seq<char>,
    tail: Seq<char>,
    a: Answers,
)
    requires
        c1.len() > 0,
        is_word(c1),
        is_word(c2),
        ascii_upper(c1) == ascii_upper(c2),
        tail.len() == 0 || tail[0] == ' ',
    ensures
        respond(st, host, c1 + tail, a) == respond(st, host, c2 + tail, a),
{
    assert(ascii_upper(c1).len() == c1.len());
    assert(ascii_upper(c2).len() == c2.len());
    lemma_strip_eol_concat(c1, tail);
    lemma_strip_eol_concat(c2, tail);
    let s = strip_eol(tail);
    lemma_split_word(c1, s);
    lemma_split_word(c2, s);
    lemma_upper_first(c1);
    lemma_upper_first(c2);
    assert((c1 + s)[0] == c1[0]);
    assert((c2 + s)[0] == c2[0]);
}

/// Whether `line` is a command line whose command word, in any case, names
/// `command`.
pub open spec fn names(line: Seq<char>, command: Command) -> bool {
    let l = strip_eol(line);
    &&& l.len() > 0
    &&& l[0] != '#'
    &&& command_of(ascii_upper(split_line(l).0)) == command
}

/// `MESSAGE` is informational: whatever outcome the frontend reports, even
/// a cancellation, the agent is told OK, and nothing but the error text of
/// the request is forgotten. (A frontend that fails outright is reported.)
pub proof fn law_message_always_succeeds(st: StateModel, host: Option<HostInfo>, line: Seq<char>, a: Answers)
    requires
        names(line, Command::Message),
        a.confirm is Ok,
    ensures
        respond(st, host, line, a).out == ok_line(),
        respond(st, host, line, a).state == with_request(st, RequestModel { error: None, ..st.request }),
{
    reveal_strlit("--one-button");
    let o = parse_confirm_options("--one-button"@);
    assert("--one-button"@.subrange(0, "--one-button"@.len() as int) =~= "--one-button"@);
    assert(crate::text::occurs_at("--one-button"@, "--one-button"@, 0));
    assert(o.one_button);
}

/// After `GETPIN`, whatever the frontend answered, the one-shot parts of the
/// request (the error, the repeat label and the quality bar) are gone, and
/// everything else is as it was.
pub proof fn law_getpin_clears_one_shot_fields(st: StateModel, host: Option<HostInfo>, line: Seq<char>, a: Answers)
    requires
        names(line, Command::GetPin),
    ensures
        respond(st, host, line, a).state == with_request(st, after_getpin(st.request)),
        respond(st, host, line, a).out == getpin_reply(a.pin),
{
}

/// `RESET` forgets the prompt but keeps every option, the timeout included.
pub proof fn law_reset_keeps_options(st: StateModel, host: Option<HostInfo>, line: Seq<char>, a: Answers)
    requires
        names(line, Command::Reset),
    ensures
        respond(st, host, line, a).state == (StateModel { options: st.options, request: empty_request() }),
        respond(st, host, line, a).out == ok_line(),
{
}

/// A line with a command the server does not know changes nothing and is
/// answered with the unknown-command error; the session goes on.
pub proof fn law_unknown_command_changes_nothing(st: StateModel, host: Option<HostInfo>, line: Seq<char>, a: Answers)
    requires
        names(line, Command::Unknown),
    ensures
        respond(st, host, line, a) == reply(st, err_bytes(ASS_UNKNOWN_CMD, "Unknown IPC command"@)),
{
}

/// `BYE` closes the connection: it answers with the closing line, changes
/// nothing, and no line after it is read.
pub proof fn law_bye_ends_the_session(
    st: StateModel,
    host: Option<HostInfo>,
    fin: bool,
    lines: Seq<Seq<char>>,
    a: Seq<Answers>,
    k: int,
)
    requires
        0 <= k < lines.len(),
        names(lines[k], Command::Bye),
        k == 0 || !session(st, host, fin, lines.take(k), a).2,
    ensures
        session(st, host, fin, lines, a) == session(st, host, fin, lines.take(k + 1), a),
        session(st, host, fin, lines, a).2,
{
    let t = lines.take(k + 1);
    assert(t.take(k) =~= lines.take(k));
    assert(t[k] == lines[k]);
    assert(session(st, host, fin, t, a).2);
    lemma_session_stops(st, host, fin, lines, a, k + 1);
}

/// Chunking loses nothing and keeps every `D` line short: each piece is at
/// most 256 bytes, so at most 768 escaped bytes, well under Assuan's
/// 1000-byte line limit; and decoding the pieces in order gives the data back.
pub proof fn law_data_lines_carry_the_data(d: Seq<u8>)
    ensures
        forall|i: int| 0 <= i < chunks(d).len() ==> #[trigger] chunks(d)[i].len() <= 256,
        forall|i: int|
            0 <= i < chunks(d).len() ==> #[trigger] escape_data(chunks(d)[i]).len() <= 768,
        percent_decode(escape_data(crate::assuan::codec::flatten(chunks(d)))) == d,
        crate::assuan::codec::flatten(chunks(d)) == d,
    decreases d.len(),
{
    crate::assuan::codec::law_decode_undoes_data_escaping(crate::assuan::codec::flatten(chunks(d)));
    lemma_chunks_flatten(d);
    assert forall|i: int| 0 <= i < chunks(d).len() implies #[trigger] chunks(d)[i].len() <= 256 && escape_data(chunks(d)[i]).len() <= 768 by {
        lemma_chunk_len(d, i);
        crate::assuan::codec::lemma_escape_data_len(chunks(d)[i]);
    }
}

proof fn lemma_chunk_len(d: Seq<u8>, i: int)
    requires
        0 <= i < chunks(d).len(),
    ensures
        chunks(d)[i].len() <= 256,
    decreases d.len(),
{
    if d.len() > 256 {
        if i > 0 {
            lemma_chunk_len(d.skip(256), i - 1);
        }
    }
}

proof fn lemma_chunks_flatten(d: Seq<u8>)
    ensures
        crate::assuan::codec::flatten(chunks(d)) == d,
    decreases d.len(),
{
    if d.len() <= 256 {
        let cs = chunks(d);
        assert(cs == seq![d]);
        assert(cs[0] == d);
        assert(cs.drop_first() =~= Seq::<Seq<u8>>::empty());
        assert(crate::assuan::codec::flatten(cs.drop_first()) == Seq::<u8>::empty());
        assert(d + Seq::<u8>::empty() =~= d);
    } else {
        lemma_chunks_flatten(d.skip(256));
        assert(chunks(d).drop_first() =~= chunks(d.skip(256)));
        assert(d.take(256) + d.skip(256) =~= d);
    }
}

} // verus!
