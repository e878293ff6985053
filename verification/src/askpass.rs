//! `dank-askpass`, a `SUDO_ASKPASS` / `SSH_ASKPASS` program that draws its
//! prompt through the DMS plugin: what the caller asks for.
use vstd::prelude::*;
use crate::assuan::state::{opt_text, Options};
use crate::backend::dms::{OwnerInfo, Reply, Request, PROTOCOL_VERSION};
use crate::text::{is, str_chars};

verus! {

/// What the caller wants, from ssh's `SSH_ASKPASS_PROMPT`. sudo never sets it.
#[derive(Debug, Clone, Copy, PartialEq, Eq, Structural)]
pub enum Mode {
    Passphrase,
    Confirm,
    Notify,
}

pub open spec fn spec_mode(value: Option<Seq<char>>) -> Mode {
    match value {
        Some(v) => if v == "confirm"@ {
            Mode::Confirm
        } else if v == "none"@ {
            Mode::Notify
        } else {
            Mode::Passphrase
        },
        None => Mode::Passphrase,
    }
}

impl Mode {
    pub fn from_env(value: Option<&str>) -> (r: Self)
        ensures
            r == spec_mode(
                match value {
                    Some(v) => Some(v@),
                    None => None,
                },
            ),
    {
        match value {
            Some(v) => {
                let c = str_chars(v);
                if is(&c, "confirm") {
                    Self::Confirm
                } else if is(&c, "none") {
                    Self::Notify
                } else {
                    Self::Passphrase
                }
            },
            None => Self::Passphrase,
        }
    }

    /// The request type sent to the plugin.
    pub fn request_kind(self) -> (r: &'static str)
        ensures
            r@ == match self {
                Mode::Passphrase => "getpin"@,
                Mode::Confirm => "confirm"@,
                Mode::Notify => "message"@,
            },
    {
        match self {
            Self::Passphrase => "getpin",
            Self::Confirm => "confirm",
            Self::Notify => "message",
        }
    }
}

/// How the helper ends, given the plugin's reply.
#[derive(Debug, Clone, Copy, PartialEq, Eq, Structural)]
pub enum Finish {
    /// Print the reply's passphrase and succeed.
    PrintPassphrase,
    /// A passphrase reply that carried none: fail.
    MissingPassphrase,
    /// Succeed without output.
    Succeed,
    /// The plugin reported an error: show its message and fail.
    PluginError,
    /// Fail: cancelled, declined, or an answer of the wrong kind.
    Fail,
}

pub open spec fn spec_finish(mode: Mode, kind: Seq<char>, pin: Option<Seq<char>>, outcome: Option<Seq<char>>) -> Finish {
    if mode == Mode::Passphrase && kind == "pin"@ {
        if pin is Some {
            Finish::PrintPassphrase
        } else {
            Finish::MissingPassphrase
        }
    } else if mode == Mode::Confirm && kind == "confirm"@ && outcome == Some("confirmed"@) {
        Finish::Succeed
    } else if mode == Mode::Notify {
        Finish::Succeed
    } else if kind == "error"@ {
        Finish::PluginError
    } else {
        Finish::Fail
    }
}

/// Only a passphrase, or an explicit confirmation, counts as success; a
/// notification has nothing to answer and always succeeds.
pub fn finish(mode: Mode, reply: &Reply) -> (r: Finish)
    ensures
        r == spec_finish(mode, reply.kind@, opt_text(reply.pin), opt_text(reply.outcome)),
{
    let kind = str_chars(reply.kind.as_str());
    if mode == Mode::Passphrase && is(&kind, "pin") {
        if reply.pin.is_some() {
            Finish::PrintPassphrase
        } else {
            Finish::MissingPassphrase
        }
    } else if mode == Mode::Confirm && is(&kind, "confirm") && match &reply.outcome {
        Some(o) => is(&str_chars(o.as_str()), "confirmed"),
        None => false,
    } {
        Finish::Succeed
    } else if mode == Mode::Notify {
        Finish::Succeed
    } else if is(&kind, "error") {
        Finish::PluginError
    } else {
        Finish::Fail
    }
}

/// The single request the helper sends: the caller's prompt as the
/// description (none when it is empty), the caller as owner, and the
/// configured timeout or the default.
pub fn request(mode: Mode, id: String, prompt: String, caller: u32, uid: u32, command: Option<String>, timeout: Option<u32>) -> (r: Request)
    ensures
        r.v == PROTOCOL_VERSION,
        r.kind@ == match mode {
            Mode::Passphrase => "getpin"@,
            Mode::Confirm => "confirm"@,
            Mode::Notify => "message"@,
        },
        r.id@ == id@,
        opt_text(r.description) == if prompt@.len() == 0 {
            None
        } else {
            Some(prompt@)
        },
        r.owner matches Some(o) && o.pid == Some(caller) && o.uid == Some(uid) && o.host is None
            && opt_text(o.command) == opt_text(command),
        r.timeout == match timeout {
            Some(t) => t,
            None => Options::DEFAULT_TIMEOUT_SECS,
        },
        r.title is None && r.prompt is None && r.error is None && r.ok is None,
        r.cancel is None && r.notok is None && r.repeat is None && r.repeat_error is None,
        r.quality_bar is None && r.keyinfo is None,
{
    let description = if prompt.as_str().is_empty() {
        None
    } else {
        Some(prompt)
    };
    let mut r = Request::default();
    r.v = PROTOCOL_VERSION;
    r.kind = mode.request_kind();
    r.id = id;
    r.description = description;
    r.owner = Some(OwnerInfo { pid: Some(caller), uid: Some(uid), host: None, command });
    r.timeout = match timeout {
        Some(t) => t,
        None => Options::DEFAULT_TIMEOUT_SECS,
    };
    r
}

/// The helper succeeds only when the caller got what it asked for: in
/// passphrase mode a `pin` reply that carries one is printed, and nothing
/// else prints; in confirm mode only a `confirm` reply whose outcome is
/// exactly `confirmed` succeeds, so a cancelled, declined or missing
/// outcome fails; a notification always succeeds.
pub proof fn law_askpass_succeeds_only_when_answered(
    mode: Mode,
    kind: Seq<char>,
    pin: Option<Seq<char>>,
    outcome: Option<Seq<char>>,
)
    ensures
        spec_finish(mode, kind, pin, outcome) == Finish::PrintPassphrase <==> (mode
            == Mode::Passphrase && kind == "pin"@ && pin is Some),
        mode == Mode::Confirm ==> (spec_finish(mode, kind, pin, outcome) == Finish::Succeed <==> (
        kind == "confirm"@ && outcome == Some("confirmed"@))),
        mode == Mode::Passphrase ==> spec_finish(mode, kind, pin, outcome) != Finish::Succeed,
        mode == Mode::Notify ==> spec_finish(mode, kind, pin, outcome) == Finish::Succeed,
{
}

} // verus!
