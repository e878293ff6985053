//! The DankMaterialShell frontend: one newline-delimited JSON request/reply
//! per prompt over a Unix socket the plugin listens on. Building the request
//! and deciding what a reply means happen here; the socket and the JSON are
//! the caller's part.
use vstd::prelude::*;
use vstd::utf8::encode_utf8;
use crate::assuan::error::{AssuanError, CANCELED, GENERAL};
use crate::assuan::state::{
    copy_text, opt_text, spec_effective_cancel, spec_effective_ok, spec_effective_prompt, State,
};
use crate::backend::{ConfirmOptions, ConfirmOutcome, PinResponse};
use crate::secret::{Secret, DEFAULT_CAPACITY};
use crate::text::{is, str_chars, string_from_chars};

verus! {

pub const PROTOCOL_VERSION: u32 = 1;

#[derive(Debug)]
pub struct OwnerInfo {
    pub pid: Option<u32>,
    pub uid: Option<u32>,
    pub host: Option<String>,
    pub command: Option<String>,
}

#[derive(Debug)]
pub struct Request {
    pub v: u32,
    pub kind: &'static str,
    pub id: String,
    pub title: Option<String>,
    pub description: Option<String>,
    pub prompt: Option<String>,
    pub error: Option<String>,
    pub ok: Option<String>,
    pub cancel: Option<String>,
    pub notok: Option<String>,
    pub repeat: Option<String>,
    pub repeat_error: Option<String>,
    pub quality_bar: Option<String>,
    pub keyinfo: Option<String>,
    pub owner: Option<OwnerInfo>,
    pub timeout: u32,
}

impl Default for Request {
    fn default() -> (r: Self)
        ensures
            r.v == 0,
            r.kind@ == ""@,
            r.id@ == Seq::<char>::empty(),
            r.title is None && r.description is None && r.prompt is None && r.error is None,
            r.ok is None && r.cancel is None && r.notok is None && r.repeat is None,
            r.repeat_error is None && r.quality_bar is None && r.keyinfo is None,
            r.owner is None,
            r.timeout == 0,
    {
        Request {
            v: 0,
            kind: "",
            id: String::new(),
            title: None,
            description: None,
            prompt: None,
            error: None,
            ok: None,
            cancel: None,
            notok: None,
            repeat: None,
            repeat_error: None,
            quality_bar: None,
            keyinfo: None,
            owner: None,
            timeout: 0,
        }
    }
}

#[derive(Debug)]
pub struct Reply {
    pub v: u32,
    pub kind: String,
    pub id: Option<String>,
    pub pin: Option<String>,
    /// The prompt had the user type the passphrase twice.
    pub repeated: bool,
    pub outcome: Option<String>,
    pub message: Option<String>,
}

pub struct DmsBackend {
    socket_path: String,
}

/// `e` is the general error with this description.
pub open spec fn general_error(e: AssuanError, description: Seq<char>) -> bool {
    e.code == GENERAL && e.description@ == description
}

impl DmsBackend {
    pub closed spec fn spec_socket_path(&self) -> Seq<char> {
        self.socket_path@
    }

    pub fn new(socket_path: String) -> (r: Self)
        ensures
            r.spec_socket_path() == socket_path@,
    {
        Self { socket_path }
    }

    pub fn socket_path(&self) -> (r: &str)
        ensures
            r@ == self.spec_socket_path(),
    {
        self.socket_path.as_str()
    }

    pub fn flavor(&self) -> (r: &'static str)
        ensures
            r@ == "dank:dms"@,
    {
        "dank:dms"
    }

    /// The request for a prompt of `kind`, carrying everything gpg-agent set.
    /// `id` pairs the reply with it; `command` is the owner's command line,
    /// looked up by the caller.
    pub fn build_request(&self, state: &State, kind: &'static str, id: String, command: Option<String>) -> (r: Request)
        ensures
            r.v == PROTOCOL_VERSION,
            r.kind == kind,
            r.id@ == id@,
            opt_text(r.title) == state@.request.title,
            opt_text(r.description) == state@.request.description,
            opt_text(r.prompt) == Some(spec_effective_prompt(state@)),
            opt_text(r.error) == state@.request.error,
            opt_text(r.ok) == Some(spec_effective_ok(state@)),
            opt_text(r.cancel) == Some(spec_effective_cancel(state@)),
            opt_text(r.notok) == state@.request.notok,
            opt_text(r.repeat) == state@.request.repeat_passphrase,
            opt_text(r.repeat_error) == state@.request.repeat_error,
            opt_text(r.quality_bar) == state@.request.quality_bar,
            opt_text(r.keyinfo) == state@.request.keyinfo,
            r.timeout == state.options.timeout_secs,
            match state@.options.owner {
                Some(o) => r.owner matches Some(info) && info.pid == o.pid && info.uid == o.uid
                    && opt_text(info.host) == o.host && opt_text(info.command) == opt_text(command),
                None => r.owner is None,
            },
    {
        let owner = match &state.options.owner {
            Some(o) => Some(
                OwnerInfo { pid: o.pid, uid: o.uid, host: copy_text(&o.host), command },
            ),
            None => None,
        };
        Request {
            v: PROTOCOL_VERSION,
            kind,
            id,
            title: copy_text(&state.request.title),
            description: copy_text(&state.request.description),
            prompt: Some(string_from_chars(&str_chars(state.effective_prompt()))),
            error: copy_text(&state.request.error),
            ok: Some(string_from_chars(&str_chars(state.effective_ok()))),
            cancel: Some(string_from_chars(&str_chars(state.effective_cancel()))),
            notok: copy_text(&state.request.notok),
            repeat: copy_text(&state.request.repeat_passphrase),
            repeat_error: copy_text(&state.request.repeat_error),
            quality_bar: copy_text(&state.request.quality_bar),
            keyinfo: copy_text(&state.request.keyinfo),
            owner,
            timeout: state.options.timeout_secs,
        }
    }
}

/// A confirmation with one button is a message.
pub fn confirm_kind(options: ConfirmOptions) -> (r: &'static str)
    ensures
        r@ == if options.one_button {
            "message"@
        } else {
            "confirm"@
        },
{
    if options.one_button {
        "message"
    } else {
        "confirm"
    }
}

/// A receiver that sees an unknown version refuses the reply; a reply that
/// carries no version is taken as the current one.
pub fn check_version(reply: &Reply) -> (r: Result<(), AssuanError>)
    ensures
        r is Ok <==> (reply.v == 0 || reply.v == PROTOCOL_VERSION),
        r matches Err(e) ==> general_error(e, "protocol version mismatch"@),
{
    if reply.v != 0 && reply.v != PROTOCOL_VERSION {
        return Err(AssuanError::general("protocol version mismatch"));
    }
    Ok(())
}

/// A reply from some other, abandoned prompt is discarded.
pub fn check_reply_id(reply: &Reply, request: &Request) -> (r: Result<(), AssuanError>)
    ensures
        r is Ok <==> (match opt_text(reply.id) {
            Some(id) => id == request.id@,
            None => true,
        }),
        r matches Err(e) ==> general_error(e, "reply id mismatch"@),
{
    match &reply.id {
        Some(id) => {
            if !crate::text::chars_eq(&str_chars(id.as_str()), &str_chars(request.id.as_str())) {
                return Err(AssuanError::general("reply id mismatch"));
            }
        },
        None => {},
    }
    Ok(())
}

/// The passphrase of a `pin` reply. `repeated` is only honoured when
/// gpg-agent asked for a repeat: claiming it otherwise would suppress a
/// confirmation gpg-agent never delegated.
pub fn pin_from_reply(reply: Reply, state: &State) -> (r: Result<PinResponse, AssuanError>)
    ensures
        match opt_text(reply.pin) {
            None => r matches Err(e) && general_error(e, "no pin field"@),
            Some(p) => if encode_utf8(p).len() <= DEFAULT_CAPACITY {
                r matches Ok(pin) && pin.secret@ == encode_utf8(p) && pin.secret.spec_capacity()
                    == DEFAULT_CAPACITY && pin.repeated == (reply.repeated
                    && state@.request.repeat_passphrase is Some)
            } else {
                r matches Err(e) && general_error(e, "passphrase too long"@)
            },
        },
{
    let pin = match reply.pin {
        Some(p) => p,
        None => return Err(AssuanError::general("no pin field")),
    };
    let mut secret = Secret::new();
    if secret.push_str(pin.as_str()).is_err() {
        return Err(AssuanError::general("passphrase too long"));
    }
    Ok(
        PinResponse {
            secret,
            repeated: reply.repeated && state.request.repeat_passphrase.is_some(),
        },
    )
}

/// What a reply to a passphrase request means.
pub fn pin_outcome(reply: Reply, state: &State) -> (r: Result<PinResponse, AssuanError>)
    ensures
        reply.kind@ == "cancel"@ ==> (r matches Err(e) && e.code == CANCELED && e.description@
            == "Operation cancelled"@),
        reply.kind@ == "error"@ ==> (r matches Err(e) && general_error(
            e,
            "plugin reported an error"@,
        )),
        reply.kind@ != "pin"@ && reply.kind@ != "cancel"@ && reply.kind@ != "error"@ ==> (r matches Err(e)
            && general_error(e, "unexpected reply"@)),
        reply.kind@ == "pin"@ ==> match opt_text(reply.pin) {
            None => r matches Err(e) && general_error(e, "no pin field"@),
            Some(p) => if encode_utf8(p).len() <= DEFAULT_CAPACITY {
                r matches Ok(pin) && pin.secret@ == encode_utf8(p) && pin.repeated == (
                reply.repeated && state@.request.repeat_passphrase is Some)
            } else {
                r matches Err(e) && general_error(e, "passphrase too long"@)
            },
        },
{
    let kind = str_chars(reply.kind.as_str());
    proof {
        reveal_strlit("pin");
        reveal_strlit("cancel");
        reveal_strlit("error");
        assert("pin"@.len() == 3);
        assert("cancel"@.len() == 6);
        assert("error"@.len() == 5);
    }
    if is(&kind, "pin") {
        pin_from_reply(reply, state)
    } else if is(&kind, "cancel") {
        Err(AssuanError::canceled())
    } else if is(&kind, "error") {
        Err(AssuanError::general("plugin reported an error"))
    } else {
        Err(AssuanError::general("unexpected reply"))
    }
}

/// What a `confirm` reply's outcome names.
pub open spec fn spec_outcome(outcome: Option<Seq<char>>) -> Option<ConfirmOutcome> {
    match outcome {
        Some(o) => if o == "confirmed"@ {
            Some(ConfirmOutcome::Confirmed)
        } else if o == "declined"@ {
            Some(ConfirmOutcome::Declined)
        } else if o == "cancelled"@ || o == "canceled"@ {
            Some(ConfirmOutcome::Cancelled)
        } else {
            None
        },
        None => None,
    }
}

/// What a reply to a confirmation or message request means.
pub fn confirm_outcome(reply: &Reply) -> (r: Result<ConfirmOutcome, AssuanError>)
    ensures
        reply.kind@ == "confirm"@ ==> match spec_outcome(opt_text(reply.outcome)) {
            Some(o) => r == Ok::<ConfirmOutcome, AssuanError>(o),
            None => r matches Err(e) && general_error(e, "missing outcome"@),
        },
        reply.kind@ == "cancel"@ ==> r == Ok::<ConfirmOutcome, AssuanError>(ConfirmOutcome::Cancelled),
        reply.kind@ == "error"@ ==> (r matches Err(e) && general_error(
            e,
            "plugin reported an error"@,
        )),
        reply.kind@ != "confirm"@ && reply.kind@ != "cancel"@ && reply.kind@ != "error"@ ==> (r matches Err(
            e,
        ) && general_error(e, "unexpected reply"@)),
{
    let kind = str_chars(reply.kind.as_str());
    proof {
        reveal_strlit("confirm");
        reveal_strlit("cancel");
        reveal_strlit("error");
        assert("confirm"@.len() == 7);
        assert("cancel"@.len() == 6);
        assert("error"@.len() == 5);
        assert("cancel"@ != "confirm"@) by {
            assert("cancel"@[1] != "confirm"@[1]);
        }
    }
    if is(&kind, "confirm") {
        match &reply.outcome {
            Some(o) => {
                let oc = str_chars(o.as_str());
                if is(&oc, "confirmed") {
                    Ok(ConfirmOutcome::Confirmed)
                } else if is(&oc, "declined") {
                    Ok(ConfirmOutcome::Declined)
                } else if is(&oc, "cancelled") || is(&oc, "canceled") {
                    Ok(ConfirmOutcome::Cancelled)
                } else {
                    Err(AssuanError::general("missing outcome"))
                }
            },
            None => Err(AssuanError::general("missing outcome")),
        }
    } else if is(&kind, "cancel") {
        Ok(ConfirmOutcome::Cancelled)
    } else if is(&kind, "error") {
        Err(AssuanError::general("plugin reported an error"))
    } else {
        Err(AssuanError::general("unexpected reply"))
    }
}

} // verus!
