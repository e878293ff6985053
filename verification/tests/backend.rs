use dank_pinentry::assuan::state::State;
use dank_pinentry::backend::{Backend, ConfirmOptions, ConfirmOutcome, NullBackend, PinResponse};
use dank_pinentry::secret::Secret;

#[test]
fn parses_one_button() {
    assert!(ConfirmOptions::parse("--one-button").one_button);
    assert!(!ConfirmOptions::parse("").one_button);
}

#[test]
fn parses_focus() {
    assert_eq!(ConfirmOptions::parse("--focus=ok").focus, 1);
    assert_eq!(ConfirmOptions::parse("--focus=cancel").focus, -1);
    assert_eq!(ConfirmOptions::parse("").focus, 0);
}

#[test]
fn parses_combined_flags() {
    let opts = ConfirmOptions::parse("--one-button --focus=cancel");
    assert!(opts.one_button);
    assert_eq!(opts.focus, -1);
}

// ---- further cases ----

#[test]
fn the_null_frontend_cancels_everything() {
    let mut b = NullBackend::new();
    let state = State::new();
    assert_eq!(b.get_pin(&state).unwrap_err().code, dank_pinentry::assuan::error::CANCELED);
    assert_eq!(b.confirm(&state, ConfirmOptions::default()).unwrap(), ConfirmOutcome::Cancelled);
    assert_eq!(b.flavor(), "null");
}

#[test]
fn a_secret_converts_into_a_single_entry_response() {
    let mut s = Secret::new();
    s.push_str("pw").unwrap();
    let r: PinResponse = s.into();
    assert!(!r.repeated);
    assert_eq!(r.secret.as_bytes(), b"pw");
}
