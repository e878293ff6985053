use std::time::{Duration, Instant};

use dank_pinentry::assuan::error::{ASS_NO_INPUT, CANCELED, TIMEOUT};
use dank_pinentry::assuan::state::State;
use dank_pinentry::backend::tty::{
    confirm_hint, confirm_key, header_lines, pin_key, poll_timeout, prompt_line,
    strip_accelerator, text_lines, PinEntry, PinKey, PinStep, TtyBackend, pin_finished, pin_stopped, confirm_stopped, Stop,
};
use dank_pinentry::backend::ConfirmOutcome;

fn elapsed_since(started: Instant) -> u128 {
    started.elapsed().as_nanos()
}

#[test]
fn device_path_prefers_the_agent_supplied_tty() {
    let mut state = State::new();
    assert_eq!(TtyBackend::device_path(&state), "/dev/tty");

    state.options.ttyname = Some("/dev/pts/7".into());
    assert_eq!(TtyBackend::device_path(&state), "/dev/pts/7");
}

#[test]
fn empty_ttyname_falls_back() {
    let mut state = State::new();
    state.options.ttyname = Some(String::new());
    assert_eq!(TtyBackend::device_path(&state), "/dev/tty");
}

#[test]
fn accelerators_are_stripped_for_the_terminal() {
    assert_eq!(strip_accelerator("_OK"), "OK");
    assert_eq!(strip_accelerator("_Cancel"), "Cancel");
    assert_eq!(strip_accelerator("Yes"), "Yes");
}

#[test]
fn mask_char_honours_the_invisible_char_option() {
    let backend = TtyBackend::new();
    let mut state = State::new();
    assert_eq!(backend.mask_char(&state), '*');

    state.options.invisible_char = Some("•".into());
    assert_eq!(backend.mask_char(&state), '•');
}

#[test]
fn zero_timeout_means_block_forever() {
    let mut state = State::new();
    state.options.timeout_secs = 0;
    assert_eq!(poll_timeout(&state, elapsed_since(Instant::now())), -1);
}

#[test]
fn timeout_counts_down() {
    let mut state = State::new();
    state.options.timeout_secs = 60;
    let remaining = poll_timeout(&state, elapsed_since(Instant::now()));
    assert!(remaining > 59_000 && remaining <= 60_000, "{remaining}");
}

#[test]
fn expired_timeout_polls_without_blocking() {
    let mut state = State::new();
    state.options.timeout_secs = 1;
    let started = Instant::now() - Duration::from_secs(5);
    assert_eq!(poll_timeout(&state, elapsed_since(started)), 0);
}

// ---- further cases ----

#[test]
fn poll_timeout_is_exact_in_milliseconds() {
    let mut state = State::new();
    state.options.timeout_secs = 2;
    assert_eq!(poll_timeout(&state, 500_000_000), 1500);
    assert_eq!(poll_timeout(&state, 2_000_000_000), 0);
    state.options.timeout_secs = u32::MAX;
    assert_eq!(poll_timeout(&state, 0), i32::MAX);
}

#[test]
fn keys_at_the_passphrase_prompt() {
    assert_eq!(pin_key(b'\r', false), PinKey::Submit);
    assert_eq!(pin_key(b'\n', true), PinKey::Submit);
    assert_eq!(pin_key(3, false), PinKey::Cancel);
    assert_eq!(pin_key(0x1b, false), PinKey::Cancel);
    assert_eq!(pin_key(4, true), PinKey::Cancel);
    assert_eq!(pin_key(4, false), PinKey::Ignore);
    assert_eq!(pin_key(0x7f, false), PinKey::Erase);
    assert_eq!(pin_key(8, false), PinKey::Erase);
    assert_eq!(pin_key(0x15, false), PinKey::Clear);
    assert_eq!(pin_key(b'x', false), PinKey::Insert(1));
    assert_eq!(pin_key(0xC3, false), PinKey::Insert(2));
}

#[test]
fn keys_at_a_confirmation() {
    assert_eq!(confirm_key(false, b'y'), Some(ConfirmOutcome::Confirmed));
    assert_eq!(confirm_key(false, b'Y'), Some(ConfirmOutcome::Confirmed));
    assert_eq!(confirm_key(false, b'\r'), Some(ConfirmOutcome::Confirmed));
    assert_eq!(confirm_key(false, b'N'), Some(ConfirmOutcome::Declined));
    assert_eq!(confirm_key(false, 0x1b), Some(ConfirmOutcome::Cancelled));
    assert_eq!(confirm_key(false, b'q'), None);
    assert_eq!(confirm_key(true, b'q'), Some(ConfirmOutcome::Confirmed));
}

#[test]
fn the_entry_erases_whole_characters() {
    let mut e = PinEntry::new();
    assert!(e.insert(b"a"));
    assert!(e.insert("ü".as_bytes()));
    assert_eq!(e.chars, 2);
    e.erase();
    assert_eq!(e.secret.as_bytes(), b"a");
    assert_eq!(e.chars, 1);
    e.clear();
    assert_eq!(e.chars, 0);
    assert!(e.secret.is_empty());
    e.erase();
    assert_eq!(e.chars, 0);
}

#[test]
fn prompt_and_hint_lines() {
    assert_eq!(prompt_line("PIN:", '*', 3), "PIN: ***");
    let mut state = State::new();
    assert_eq!(confirm_hint(&state, true), "[OK] ");
    assert_eq!(confirm_hint(&state, false), "[OK/Cancel] ");
    state.request.ok = Some("_Yes".into());
    state.request.cancel = Some("_No".into());
    assert_eq!(confirm_hint(&state, false), "[Yes/No] ");
}

#[test]
fn header_shows_title_description_and_error() {
    let mut state = State::new();
    state.request.title = Some("T".into());
    state.request.description = Some("one\r\ntwo\n".into());
    state.request.error = Some("bad".into());
    let lines: Vec<String> = header_lines(&state).into_iter().map(|l| l.into_iter().collect()).collect();
    assert_eq!(
        lines,
        vec![
            "\u{1b}[1mT\u{1b}[0m".to_string(),
            "one".to_string(),
            "two".to_string(),
            "\u{1b}[1;31mbad\u{1b}[0m".to_string(),
        ]
    );
}

#[test]
fn text_lines_behave_like_str_lines() {
    for text in ["", "a", "a\n", "a\nb", "a\r\nb\r\n", "\n\n"] {
        let v: Vec<char> = text.chars().collect();
        let got: Vec<String> = text_lines(&v).into_iter().map(|l| l.into_iter().collect()).collect();
        let want: Vec<String> = text.lines().map(|s| s.to_string()).collect();
        assert_eq!(got, want, "{text:?}");
    }
}

#[test]
fn the_terminal_flavor() {
    assert_eq!(TtyBackend::new().flavor(), "dank:tty");
}

#[test]
fn keys_drive_the_entry() {

    let mut e = PinEntry::new();
    assert_eq!(e.apply(pin_key(b'a', true), b"a"), PinStep::Continue);
    assert_eq!(e.apply(pin_key(0xE2, false), "€".as_bytes()), PinStep::Continue);
    assert_eq!(e.secret.as_bytes(), "a€".as_bytes());
    assert_eq!(e.chars, 2);
    assert_eq!(e.apply(pin_key(4, false), b""), PinStep::Continue);
    assert_eq!(e.chars, 2);
    assert_eq!(e.apply(pin_key(0x7f, false), b""), PinStep::Continue);
    assert_eq!(e.secret.as_bytes(), b"a");
    assert_eq!(e.apply(pin_key(0x15, false), b""), PinStep::Continue);
    assert!(e.secret.is_empty());
    assert_eq!(e.apply(pin_key(4, true), b""), PinStep::Cancelled);
    assert_eq!(e.apply(pin_key(b'\r', true), b""), PinStep::Submitted);
}

#[test]
fn stopped_reads_map_to_answers() {

    assert_eq!(pin_stopped(Stop::Eof).code, CANCELED);
    assert_eq!(pin_stopped(Stop::Signalled).code, CANCELED);
    assert_eq!(pin_stopped(Stop::TimedOut).code, TIMEOUT);
    assert_eq!(pin_stopped(Stop::Failed).code, ASS_NO_INPUT);
    assert_eq!(confirm_stopped(Stop::Eof).unwrap(), ConfirmOutcome::Cancelled);
    assert_eq!(confirm_stopped(Stop::Signalled).unwrap(), ConfirmOutcome::Cancelled);
    assert_eq!(confirm_stopped(Stop::TimedOut).unwrap_err().code, TIMEOUT);
    assert_eq!(confirm_stopped(Stop::Failed).unwrap_err().code, ASS_NO_INPUT);
}

#[test]
fn a_cancelling_key_ends_the_prompt_with_the_cancelled_error() {
    let mut e = PinEntry::new();
    assert_eq!(pin_finished(e.apply(pin_key(b'a', true), b"a")), None);
    assert_eq!(pin_finished(e.apply(pin_key(0x1b, false), b"")).unwrap().unwrap_err().code, CANCELED);
    assert_eq!(pin_finished(e.apply(pin_key(b'\r', false), b"")), Some(Ok(())));
}
