use dank_pinentry::assuan::error::{CANCELED, GENERAL};
use dank_pinentry::assuan::state::{Owner, State};
use dank_pinentry::backend::dms::{
    check_reply_id, check_version, confirm_kind, confirm_outcome, pin_from_reply, pin_outcome,
    DmsBackend, Reply, PROTOCOL_VERSION,
};
use dank_pinentry::backend::{ConfirmOptions, ConfirmOutcome};

fn reply(kind: &str) -> Reply {
    Reply {
        v: 1,
        kind: kind.to_string(),
        id: None,
        pin: None,
        repeated: false,
        outcome: None,
        message: None,
    }
}

fn pin_reply(pin: &str, repeated: bool) -> Reply {
    Reply { pin: Some(pin.to_string()), repeated, ..reply("pin") }
}

#[test]
fn request_includes_decoded_description_and_owner() {
    let backend = DmsBackend::new("/tmp/x.sock".to_string());
    let mut state = State::new();
    state.request.description = Some("line one\nline two".into());
    state.options.owner = Some(Owner {
        pid: Some(1234),
        uid: Some(1000),
        host: Some("nixos".into()),
    });

    let request = backend.build_request(&state, "getpin", "id".to_string(), None);

    assert_eq!(request.description.as_deref(), Some("line one\nline two"));
    let owner = request.owner.expect("owner carried");
    assert_eq!(owner.pid, Some(1234));
    assert_eq!(owner.uid, Some(1000));
    assert_eq!(owner.host.as_deref(), Some("nixos"));
}

#[test]
fn request_carries_the_configured_timeout() {
    let backend = DmsBackend::new("/tmp/x.sock".to_string());
    let mut state = State::new();
    state.options.timeout_secs = 120;
    assert_eq!(backend.build_request(&state, "getpin", "id".to_string(), None).timeout, 120);
}

#[test]
fn repeated_is_reported_when_gpg_agent_asked_for_a_repeat() {
    let mut state = State::new();
    state.request.repeat_passphrase = Some("Repeat:".into());
    let pin = pin_from_reply(pin_reply("s3cret", true), &state).unwrap();
    assert!(pin.repeated);
    assert_eq!(pin.secret.as_bytes(), b"s3cret");
}

#[test]
fn repeated_is_ignored_when_no_repeat_was_asked_for() {
    let pin = pin_from_reply(pin_reply("x", true), &State::new()).unwrap();
    assert!(!pin.repeated);
}

#[test]
fn a_single_entry_answer_to_a_repeat_request_is_not_repeated() {
    let mut state = State::new();
    state.request.repeat_passphrase = Some("Repeat:".into());
    let pin = pin_from_reply(pin_reply("x", false), &state).unwrap();
    assert!(!pin.repeated);
}

// ---- further cases ----

#[test]
fn request_has_version_kind_id_and_effective_labels() {
    let backend = DmsBackend::new("/tmp/x.sock".to_string());
    assert_eq!(backend.socket_path(), "/tmp/x.sock");
    assert_eq!(backend.flavor(), "dank:dms");
    let state = State::new();
    let r = backend.build_request(&state, "confirm", "abc".to_string(), Some("git".into()));
    assert_eq!(r.v, PROTOCOL_VERSION);
    assert_eq!(r.kind, "confirm");
    assert_eq!(r.id, "abc");
    assert_eq!(r.prompt.as_deref(), Some("PIN:"));
    assert_eq!(r.ok.as_deref(), Some("OK"));
    assert_eq!(r.cancel.as_deref(), Some("Cancel"));
    assert_eq!(r.description, None);
    assert!(r.owner.is_none());
}

#[test]
fn the_owner_command_is_attached() {
    let backend = DmsBackend::new("/tmp/x.sock".to_string());
    let mut state = State::new();
    state.options.owner = Some(Owner { pid: Some(1), uid: None, host: None });
    let r = backend.build_request(&state, "getpin", "i".to_string(), Some("git commit".into()));
    assert_eq!(r.owner.unwrap().command.as_deref(), Some("git commit"));
}

#[test]
fn a_one_button_confirmation_is_a_message() {
    assert_eq!(confirm_kind(ConfirmOptions { one_button: true, focus: 0 }), "message");
    assert_eq!(confirm_kind(ConfirmOptions::default()), "confirm");
}

#[test]
fn versions_are_checked() {
    assert!(check_version(&reply("pin")).is_ok());
    assert!(check_version(&Reply { v: 0, ..reply("pin") }).is_ok());
    let e = check_version(&Reply { v: 2, ..reply("pin") }).unwrap_err();
    assert_eq!(e.code, GENERAL);
    assert_eq!(e.description, "protocol version mismatch");
}

#[test]
fn reply_ids_must_match() {
    let backend = DmsBackend::new("/tmp/x.sock".to_string());
    let request = backend.build_request(&State::new(), "getpin", "abc".to_string(), None);
    assert!(check_reply_id(&reply("pin"), &request).is_ok());
    assert!(check_reply_id(&Reply { id: Some("abc".into()), ..reply("pin") }, &request).is_ok());
    let e = check_reply_id(&Reply { id: Some("abd".into()), ..reply("pin") }, &request).unwrap_err();
    assert_eq!(e.description, "reply id mismatch");
}

#[test]
fn pin_outcomes() {
    let state = State::new();
    assert_eq!(pin_outcome(pin_reply("pw", false), &state).unwrap().secret.as_bytes(), b"pw");
    assert_eq!(pin_outcome(reply("cancel"), &state).unwrap_err().code, CANCELED);
    assert_eq!(pin_outcome(reply("error"), &state).unwrap_err().description, "plugin reported an error");
    assert_eq!(pin_outcome(reply("pong"), &state).unwrap_err().description, "unexpected reply");
    assert_eq!(pin_outcome(reply("pin"), &state).unwrap_err().description, "no pin field");
    let long = "x".repeat(5000);
    assert_eq!(pin_from_reply(pin_reply(&long, false), &state).unwrap_err().description, "passphrase too long");
}

#[test]
fn confirm_outcomes() {
    let with = |o: &str| Reply { outcome: Some(o.to_string()), ..reply("confirm") };
    assert_eq!(confirm_outcome(&with("confirmed")).unwrap(), ConfirmOutcome::Confirmed);
    assert_eq!(confirm_outcome(&with("declined")).unwrap(), ConfirmOutcome::Declined);
    assert_eq!(confirm_outcome(&with("cancelled")).unwrap(), ConfirmOutcome::Cancelled);
    assert_eq!(confirm_outcome(&with("canceled")).unwrap(), ConfirmOutcome::Cancelled);
    assert_eq!(confirm_outcome(&with("maybe")).unwrap_err().description, "missing outcome");
    assert_eq!(confirm_outcome(&reply("confirm")).unwrap_err().description, "missing outcome");
    assert_eq!(confirm_outcome(&reply("cancel")).unwrap(), ConfirmOutcome::Cancelled);
    assert_eq!(confirm_outcome(&reply("error")).unwrap_err().description, "plugin reported an error");
    assert_eq!(confirm_outcome(&reply("pin")).unwrap_err().description, "unexpected reply");
}
