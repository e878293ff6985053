//! Accumulated pinentry state.
//!
//! The [`Options`]/[`Request`] split mirrors GnuPG pinentry's `pinentry_reset()`:
//! `OPTION` lines survive a `RESET`, per-prompt `SET*` values do not. Getting
//! this backwards leaks stale descriptions into the next prompt.
use vstd::prelude::*;
use crate::text::{is_ws, is_whitespace, parse_u32, parse_u32_chars, slice_of, split_once, split_once_char, str_chars, string_from_chars, trim, trim_start, trimmed, trimmed_start};

verus! {

/// The text of an optional string.
pub open spec fn opt_text(o: Option<String>) -> Option<Seq<char>> {
    match o {
        Some(s) => Some(s@),
        None => None,
    }
}

/// Preserved across `RESET`.
#[derive(Debug, Clone)]
pub struct Options {
    pub grab: bool,
    pub ttyname: Option<String>,
    pub ttytype: Option<String>,
    pub ttyalert: Option<String>,
    pub lc_ctype: Option<String>,
    pub lc_messages: Option<String>,
    pub display: Option<String>,
    pub owner: Option<Owner>,
    pub parent_wid: Option<i64>,
    pub touch_file: Option<String>,
    pub default_ok: Option<String>,
    pub default_cancel: Option<String>,
    pub default_prompt: Option<String>,
    pub default_pwmngr: Option<String>,
    pub default_cf_visi: Option<String>,
    pub default_tt_visi: Option<String>,
    pub default_tt_hide: Option<String>,
    pub default_capshint: Option<String>,
    pub allow_external_password_cache: bool,
    pub invisible_char: Option<String>,
    pub formatted_passphrase: bool,
    pub formatted_passphrase_hint: Option<String>,
    pub constraints_enforce: bool,
    pub constraints_hint_short: Option<String>,
    pub constraints_hint_long: Option<String>,
    pub constraints_error_title: Option<String>,
    /// Seconds before a prompt gives up; 0 means never. Kept here rather than
    /// in [`Request`] because gpg-agent sends `SETTIMEOUT` only once per
    /// process, then `RESET` before prompts that lack a description.
    pub timeout_secs: u32,
}

/// The value of [`Options`], with every string taken by its text.
pub struct OptionsModel {
    pub grab: bool,
    pub ttyname: Option<Seq<char>>,
    pub ttytype: Option<Seq<char>>,
    pub ttyalert: Option<Seq<char>>,
    pub lc_ctype: Option<Seq<char>>,
    pub lc_messages: Option<Seq<char>>,
    pub display: Option<Seq<char>>,
    pub owner: Option<OwnerModel>,
    pub parent_wid: Option<i64>,
    pub touch_file: Option<Seq<char>>,
    pub default_ok: Option<Seq<char>>,
    pub default_cancel: Option<Seq<char>>,
    pub default_prompt: Option<Seq<char>>,
    pub default_pwmngr: Option<Seq<char>>,
    pub default_cf_visi: Option<Seq<char>>,
    pub default_tt_visi: Option<Seq<char>>,
    pub default_tt_hide: Option<Seq<char>>,
    pub default_capshint: Option<Seq<char>>,
    pub allow_external_password_cache: bool,
    pub invisible_char: Option<Seq<char>>,
    pub formatted_passphrase: bool,
    pub formatted_passphrase_hint: Option<Seq<char>>,
    pub constraints_enforce: bool,
    pub constraints_hint_short: Option<Seq<char>>,
    pub constraints_hint_long: Option<Seq<char>>,
    pub constraints_error_title: Option<Seq<char>>,
    pub timeout_secs: u32,
}

impl View for Options {
    type V = OptionsModel;

    open spec fn view(&self) -> OptionsModel {
        OptionsModel {
            grab: self.grab,
            ttyname: opt_text(self.ttyname),
            ttytype: opt_text(self.ttytype),
            ttyalert: opt_text(self.ttyalert),
            lc_ctype: opt_text(self.lc_ctype),
            lc_messages: opt_text(self.lc_messages),
            display: opt_text(self.display),
            owner: match self.owner {
                Some(o) => Some(o@),
                None => None,
            },
            parent_wid: self.parent_wid,
            touch_file: opt_text(self.touch_file),
            default_ok: opt_text(self.default_ok),
            default_cancel: opt_text(self.default_cancel),
            default_prompt: opt_text(self.default_prompt),
            default_pwmngr: opt_text(self.default_pwmngr),
            default_cf_visi: opt_text(self.default_cf_visi),
            default_tt_visi: opt_text(self.default_tt_visi),
            default_tt_hide: opt_text(self.default_tt_hide),
            default_capshint: opt_text(self.default_capshint),
            allow_external_password_cache: self.allow_external_password_cache,
            invisible_char: opt_text(self.invisible_char),
            formatted_passphrase: self.formatted_passphrase,
            formatted_passphrase_hint: opt_text(self.formatted_passphrase_hint),
            constraints_enforce: self.constraints_enforce,
            constraints_hint_short: opt_text(self.constraints_hint_short),
            constraints_hint_long: opt_text(self.constraints_hint_long),
            constraints_error_title: opt_text(self.constraints_error_title),
            timeout_secs: self.timeout_secs,
        }
    }
}

/// Every option unset, nothing grabbed, no timeout.
pub open spec fn empty_options() -> OptionsModel {
    OptionsModel {
        grab: false,
        ttyname: None,
        ttytype: None,
        ttyalert: None,
        lc_ctype: None,
        lc_messages: None,
        display: None,
        owner: None,
        parent_wid: None,
        touch_file: None,
        default_ok: None,
        default_cancel: None,
        default_prompt: None,
        default_pwmngr: None,
        default_cf_visi: None,
        default_tt_visi: None,
        default_tt_hide: None,
        default_capshint: None,
        allow_external_password_cache: false,
        invisible_char: None,
        formatted_passphrase: false,
        formatted_passphrase_hint: None,
        constraints_enforce: false,
        constraints_hint_short: None,
        constraints_hint_long: None,
        constraints_error_title: None,
        timeout_secs: 0,
    }
}

/// What a fresh process starts with: GnuPG's pinentry grabs the keyboard and gives
/// up after a minute.
pub open spec fn initial_options() -> OptionsModel {
    OptionsModel { grab: true, timeout_secs: 60, ..empty_options() }
}

impl Options {
    /// GnuPG pinentry's default when neither the command line nor gpg-agent set one.
    pub const DEFAULT_TIMEOUT_SECS: u32 = 60;

    pub fn new() -> (r: Self)
        ensures
            r@ == initial_options(),
    {
        Self { grab: true, timeout_secs: Self::DEFAULT_TIMEOUT_SECS, ..Self::empty() }
    }

    fn empty() -> (r: Self)
        ensures
            r@ == empty_options(),
    {
        Self {
            grab: false,
            ttyname: None,
            ttytype: None,
            ttyalert: None,
            lc_ctype: None,
            lc_messages: None,
            display: None,
            owner: None,
            parent_wid: None,
            touch_file: None,
            default_ok: None,
            default_cancel: None,
            default_prompt: None,
            default_pwmngr: None,
            default_cf_visi: None,
            default_tt_visi: None,
            default_tt_hide: None,
            default_capshint: None,
            allow_external_password_cache: false,
            invisible_char: None,
            formatted_passphrase: false,
            formatted_passphrase_hint: None,
            constraints_enforce: false,
            constraints_hint_short: None,
            constraints_hint_long: None,
            constraints_error_title: None,
            timeout_secs: 0,
        }
    }
}

impl Default for Options {
    fn default() -> (r: Self)
        ensures
            r@ == empty_options(),
    {
        Self::empty()
    }
}

/// From `OPTION owner=`; lets the UI name who is asking.
#[derive(Debug, Clone, PartialEq, Eq, Default)]
pub struct Owner {
    pub pid: Option<u32>,
    pub uid: Option<u32>,
    pub host: Option<String>,
}

pub struct OwnerModel {
    pub pid: Option<u32>,
    pub uid: Option<u32>,
    pub host: Option<Seq<char>>,
}

impl View for Owner {
    type V = OwnerModel;

    open spec fn view(&self) -> OwnerModel {
        OwnerModel { pid: self.pid, uid: self.uid, host: opt_text(self.host) }
    }
}

/// The leading run of non-whitespace characters of `s`.
pub open spec fn until_ws(s: Seq<char>) -> Seq<char>
    decreases s.len(),
{
    if s.len() == 0 || is_ws(s[0]) {
        seq![]
    } else {
        seq![s[0]] + until_ws(s.drop_first())
    }
}

/// `split_whitespace().next()`, or the empty string when there is no word.
pub open spec fn first_word(s: Seq<char>) -> Seq<char> {
    until_ws(trim_start(s))
}

/// `<pid>/<uid> <host>`, every part optional.
pub open spec fn parse_owner(value: Seq<char>) -> OwnerModel {
    let (ids, host) = match split_once(value, ' ') {
        Some((i, h)) => (i, Some(trim(h))),
        None => (value, None::<Seq<char>>),
    };
    let (pid, uid) = match split_once(ids, '/') {
        Some((p, u)) => (p, Some(u)),
        None => (ids, None::<Seq<char>>),
    };
    OwnerModel {
        pid: parse_u32(trim(pid)),
        uid: match uid {
            Some(u) => parse_u32(trim(u)),
            None => None,
        },
        host: match host {
            Some(h) => if first_word(h).len() > 0 {
                Some(first_word(h))
            } else {
                None
            },
            None => None,
        },
    }
}

proof fn lemma_until_ws_step(s: Seq<char>, i: int)
    requires
        0 <= i < s.len(),
        !is_ws(s[i]),
    ensures
        until_ws(s.skip(i)) == seq![s[i]] + until_ws(s.skip(i + 1)),
{
    assert(s.skip(i).drop_first() =~= s.skip(i + 1));
}

/// The first word of `v`.
pub fn first_word_of(v: &[char]) -> (r: Vec<char>)
    ensures
        r@ == first_word(v@),
{
    let t = trimmed_start(v);
    let mut i: usize = 0;
    proof {
        assert(t@.skip(0) =~= t@);
    }
    while i < t.len() && !is_whitespace(t[i])
        invariant
            i <= t@.len(),
            until_ws(t@) == t@.take(i as int) + until_ws(t@.skip(i as int)),
        decreases t@.len() - i,
    {
        proof {
            lemma_until_ws_step(t@, i as int);
            assert(t@.take(i + 1) =~= t@.take(i as int) + seq![t@[i as int]]);
        }
        i = i + 1;
    }
    proof {
        if i == t@.len() {
            assert(t@.skip(i as int) =~= Seq::<char>::empty());
        }
        assert(until_ws(t@.skip(i as int)) =~= Seq::<char>::empty());
        assert(t@.take(i as int) + Seq::<char>::empty() =~= t@.take(i as int));
    }
    slice_of(&t, 0, i)
}

impl Owner {
    /// `<pid>/<uid> <host>`. Every part is optional; malformed input yields an
    /// empty `Owner` rather than an error, as GnuPG's pinentry is permissive.
    pub fn parse(value: &str) -> (r: Self)
        ensures
            r@ == parse_owner(value@),
    {
        let v = str_chars(value);
        Self::parse_chars(&v)
    }

    pub fn parse_chars(v: &[char]) -> (r: Self)
        ensures
            r@ == parse_owner(v@),
    {
        let (ids, host) = match split_once_char(v, ' ') {
            Some((i, h)) => (i, Some(trimmed(&h))),
            None => (slice_of(v, 0, v.len()), None),
        };
        proof {
            assert(v@.subrange(0, v@.len() as int) =~= v@);
        }
        let (pid, uid) = match split_once_char(&ids, '/') {
            Some((p, u)) => (p, Some(u)),
            None => (slice_of(&ids, 0, ids.len()), None),
        };
        proof {
            assert(ids@.subrange(0, ids@.len() as int) =~= ids@);
        }
        let pid_num = parse_u32_chars(&trimmed(&pid));
        let uid_num = match uid {
            Some(u) => parse_u32_chars(&trimmed(&u)),
            None => None,
        };
        let host_name = match host {
            Some(h) => {
                let w = first_word_of(&h);
                if w.len() > 0 {
                    Some(string_from_chars(&w))
                } else {
                    None
                }
            },
            None => None,
        };
        Owner { pid: pid_num, uid: uid_num, host: host_name }
    }
}

/// Cleared by `RESET`, and partly after each `GETPIN`.
#[derive(Debug, Clone)]
pub struct Request {
    pub title: Option<String>,
    pub description: Option<String>,
    pub prompt: Option<String>,
    pub error: Option<String>,
    pub ok: Option<String>,
    pub notok: Option<String>,
    pub cancel: Option<String>,
    pub keyinfo: Option<String>,
    pub repeat_passphrase: Option<String>,
    pub repeat_ok: Option<String>,
    pub repeat_error: Option<String>,
    pub quality_bar: Option<String>,
    pub quality_bar_tt: Option<String>,
    pub genpin_label: Option<String>,
    pub genpin_tt: Option<String>,
}

pub struct RequestModel {
    pub title: Option<Seq<char>>,
    pub description: Option<Seq<char>>,
    pub prompt: Option<Seq<char>>,
    pub error: Option<Seq<char>>,
    pub ok: Option<Seq<char>>,
    pub notok: Option<Seq<char>>,
    pub cancel: Option<Seq<char>>,
    pub keyinfo: Option<Seq<char>>,
    pub repeat_passphrase: Option<Seq<char>>,
    pub repeat_ok: Option<Seq<char>>,
    pub repeat_error: Option<Seq<char>>,
    pub quality_bar: Option<Seq<char>>,
    pub quality_bar_tt: Option<Seq<char>>,
    pub genpin_label: Option<Seq<char>>,
    pub genpin_tt: Option<Seq<char>>,
}

impl View for Request {
    type V = RequestModel;

    open spec fn view(&self) -> RequestModel {
        RequestModel {
            title: opt_text(self.title),
            description: opt_text(self.description),
            prompt: opt_text(self.prompt),
            error: opt_text(self.error),
            ok: opt_text(self.ok),
            notok: opt_text(self.notok),
            cancel: opt_text(self.cancel),
            keyinfo: opt_text(self.keyinfo),
            repeat_passphrase: opt_text(self.repeat_passphrase),
            repeat_ok: opt_text(self.repeat_ok),
            repeat_error: opt_text(self.repeat_error),
            quality_bar: opt_text(self.quality_bar),
            quality_bar_tt: opt_text(self.quality_bar_tt),
            genpin_label: opt_text(self.genpin_label),
            genpin_tt: opt_text(self.genpin_tt),
        }
    }
}

/// A request with nothing set.
pub open spec fn empty_request() -> RequestModel {
    RequestModel {
        title: None,
        description: None,
        prompt: None,
        error: None,
        ok: None,
        notok: None,
        cancel: None,
        keyinfo: None,
        repeat_passphrase: None,
        repeat_ok: None,
        repeat_error: None,
        quality_bar: None,
        quality_bar_tt: None,
        genpin_label: None,
        genpin_tt: None,
    }
}

/// The one-shot parts of a request dropped once a passphrase was asked for.
pub open spec fn after_getpin(r: RequestModel) -> RequestModel {
    RequestModel { error: None, repeat_passphrase: None, quality_bar: None, ..r }
}

impl Request {
    pub fn new() -> (r: Self)
        ensures
            r@ == empty_request(),
    {
        Request {
            title: None,
            description: None,
            prompt: None,
            error: None,
            ok: None,
            notok: None,
            cancel: None,
            keyinfo: None,
            repeat_passphrase: None,
            repeat_ok: None,
            repeat_error: None,
            quality_bar: None,
            quality_bar_tt: None,
            genpin_label: None,
            genpin_tt: None,
        }
    }

    /// These are one-shot: a stale `error` would re-display "Bad passphrase"
    /// on an unrelated prompt, and a stale `repeat_passphrase` would wrongly
    /// ask for confirmation again.
    pub fn clear_after_getpin(&mut self)
        ensures
            final(self)@ == after_getpin(old(self)@),
    {
        self.error = None;
        self.repeat_passphrase = None;
        self.quality_bar = None;
    }
}

impl Default for Request {
    fn default() -> (r: Self)
        ensures
            r@ == empty_request(),
    {
        Self::new()
    }
}

#[derive(Debug, Clone)]
pub struct State {
    pub options: Options,
    pub request: Request,
}

pub struct StateModel {
    pub options: OptionsModel,
    pub request: RequestModel,
}

impl View for State {
    type V = StateModel;

    open spec fn view(&self) -> StateModel {
        StateModel { options: self.options@, request: self.request@ }
    }
}

/// The first of the request's value, the agent's default and the built-in
/// label that is set.
pub open spec fn label(request: Option<Seq<char>>, default: Option<Seq<char>>, builtin: Seq<char>) -> Seq<char> {
    match request {
        Some(r) => r,
        None => match default {
            Some(d) => d,
            None => builtin,
        },
    }
}

pub open spec fn spec_effective_prompt(s: StateModel) -> Seq<char> {
    label(s.request.prompt, s.options.default_prompt, "PIN:"@)
}

pub open spec fn spec_effective_ok(s: StateModel) -> Seq<char> {
    label(s.request.ok, s.options.default_ok, "OK"@)
}

pub open spec fn spec_effective_cancel(s: StateModel) -> Seq<char> {
    label(s.request.cancel, s.options.default_cancel, "Cancel"@)
}

fn pick<'a>(request: &'a Option<String>, default: &'a Option<String>, builtin: &'a str) -> (r: &'a str)
    ensures
        r@ == label(opt_text(*request), opt_text(*default), builtin@),
{
    match request {
        Some(r) => r.as_str(),
        None => match default {
            Some(d) => d.as_str(),
            None => builtin,
        },
    }
}

impl Default for State {
    fn default() -> (r: Self)
        ensures
            r@ == (StateModel { options: initial_options(), request: empty_request() }),
    {
        Self::new()
    }
}

impl State {
    pub fn new() -> (r: Self)
        ensures
            r@ == (StateModel { options: initial_options(), request: empty_request() }),
    {
        Self { options: Options::new(), request: Request::new() }
    }

    /// Later `OPTION` lines overwrite these, as in GnuPG's pinentry.
    pub fn with_options(options: Options) -> (r: Self)
        ensures
            r@ == (StateModel { options: options@, request: empty_request() }),
    {
        Self { options, request: Request::new() }
    }

    /// Forgets the prompt; what the agent set with `OPTION`, and the timeout,
    /// stay.
    pub fn reset(&mut self)
        ensures
            final(self)@ == (StateModel { options: old(self)@.options, request: empty_request() }),
    {
        self.request = Request::new();
    }

    pub fn effective_prompt(&self) -> (r: &str)
        ensures
            r@ == spec_effective_prompt(self@),
    {
        pick(&self.request.prompt, &self.options.default_prompt, "PIN:")
    }

    pub fn effective_ok(&self) -> (r: &str)
        ensures
            r@ == spec_effective_ok(self@),
    {
        pick(&self.request.ok, &self.options.default_ok, "OK")
    }

    pub fn effective_cancel(&self) -> (r: &str)
        ensures
            r@ == spec_effective_cancel(self@),
    {
        pick(&self.request.cancel, &self.options.default_cancel, "Cancel")
    }
}

/// A copy of an optional string.
pub fn copy_text(s: &Option<String>) -> (r: Option<String>)
    ensures
        opt_text(r) == opt_text(*s),
{
    match s {
        Some(v) => Some(v.clone()),
        None => None,
    }
}

} // verus!
