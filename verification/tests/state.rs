use dank_pinentry::assuan::state::{first_word_of, Options, Owner, Request, State};

#[test]
fn owner_parses_full_form() {
    let owner = Owner::parse("12345/1000 nixos");
    assert_eq!(owner.pid, Some(12345));
    assert_eq!(owner.uid, Some(1000));
    assert_eq!(owner.host.as_deref(), Some("nixos"));
}

#[test]
fn owner_parses_pid_only() {
    let owner = Owner::parse("12345");
    assert_eq!(owner.pid, Some(12345));
    assert_eq!(owner.uid, None);
    assert_eq!(owner.host, None);
}

#[test]
fn owner_parses_pid_and_uid_without_host() {
    let owner = Owner::parse("42/0");
    assert_eq!(owner.pid, Some(42));
    assert_eq!(owner.uid, Some(0));
    assert_eq!(owner.host, None);
}

#[test]
fn owner_tolerates_garbage() {
    let owner = Owner::parse("not-a-pid");
    assert_eq!(owner.pid, None);
}

#[test]
fn reset_keeps_options_but_clears_request() {
    let mut state = State::new();
    state.options.ttyname = Some("/dev/pts/3".into());
    state.request.description = Some("secret thing".into());

    state.reset();

    assert_eq!(state.options.ttyname.as_deref(), Some("/dev/pts/3"));
    assert_eq!(state.request.description, None);
}

#[test]
fn timeout_defaults_to_upstreams_value() {
    assert_eq!(State::new().options.timeout_secs, 60);
}

#[test]
fn error_does_not_leak_into_the_next_prompt() {
    let mut state = State::new();
    state.request.error = Some("Bad passphrase".into());
    state.request.repeat_passphrase = Some("Repeat:".into());

    state.request.clear_after_getpin();

    assert_eq!(state.request.error, None);
    assert_eq!(state.request.repeat_passphrase, None);
}

#[test]
fn prompt_falls_back_through_default_then_builtin() {
    let mut state = State::new();
    assert_eq!(state.effective_prompt(), "PIN:");

    state.options.default_prompt = Some("Passphrase:".into());
    assert_eq!(state.effective_prompt(), "Passphrase:");

    state.request.prompt = Some("Key passphrase:".into());
    assert_eq!(state.effective_prompt(), "Key passphrase:");
}

// ---- further cases ----

#[test]
fn button_labels_fall_back_like_the_prompt() {
    let mut state = State::new();
    assert_eq!(state.effective_ok(), "OK");
    assert_eq!(state.effective_cancel(), "Cancel");
    state.options.default_ok = Some("_Okay".into());
    state.options.default_cancel = Some("_Abort".into());
    assert_eq!(state.effective_ok(), "_Okay");
    assert_eq!(state.effective_cancel(), "_Abort");
    state.request.ok = Some("Sure".into());
    state.request.cancel = Some("Nope".into());
    assert_eq!(state.effective_ok(), "Sure");
    assert_eq!(state.effective_cancel(), "Nope");
}

#[test]
fn fresh_options_grab_and_have_no_tty() {
    let o = Options::new();
    assert!(o.grab);
    assert_eq!(o.ttyname, None);
    assert_eq!(o.owner, None);
    assert_eq!(o.timeout_secs, Options::DEFAULT_TIMEOUT_SECS);
}

#[test]
fn clearing_after_getpin_keeps_the_description() {
    let mut r = Request::new();
    r.description = Some("d".into());
    r.quality_bar = Some("Q".into());
    r.keyinfo = Some("k".into());
    r.clear_after_getpin();
    assert_eq!(r.description.as_deref(), Some("d"));
    assert_eq!(r.keyinfo.as_deref(), Some("k"));
    assert_eq!(r.quality_bar, None);
}

#[test]
fn owner_host_stops_at_whitespace_and_oversized_numbers_are_dropped() {
    let owner = Owner::parse("7/8 host extra");
    assert_eq!(owner.host.as_deref(), Some("host"));
    let owner = Owner::parse("99999999999/1");
    assert_eq!(owner.pid, None);
    assert_eq!(owner.uid, Some(1));
}

#[test]
fn first_word_stops_at_whitespace() {
    let v: Vec<char> = "abc def".chars().collect();
    assert_eq!(first_word_of(&v), vec!['a', 'b', 'c']);
}
