use dank_pinentry::assuan::error::AssuanError;
use dank_pinentry::assuan::server::{HostInfo, Server};
use dank_pinentry::assuan::state::State;
use dank_pinentry::backend::{
    Backend, ConfirmOptions, ConfirmOutcome, NullBackend, PinResponse,
};
use dank_pinentry::secret::Secret;

fn run_session<B: Backend>(backend: B, input: &str) -> String {
    let mut server = Server::new(backend);
    let mut output = Vec::new();
    server.run(input, &mut output);
    String::from_utf8(output).expect("output should be utf-8")
}

struct FixedPin(&'static str);

impl Backend for FixedPin {
    fn get_pin(&mut self, _state: &State) -> Result<PinResponse, AssuanError> {
        let mut s = Secret::new();
        s.push_str(self.0).unwrap();
        Ok(s.into())
    }
    fn confirm(
        &mut self,
        _state: &State,
        _options: ConfirmOptions,
    ) -> Result<ConfirmOutcome, AssuanError> {
        Ok(ConfirmOutcome::Confirmed)
    }
    fn flavor(&self) -> &'static str {
        "fixed"
    }
}

/// Answers as a frontend that had the passphrase typed twice.
struct RepeatedPin(&'static str);

impl Backend for RepeatedPin {
    fn get_pin(&mut self, _state: &State) -> Result<PinResponse, AssuanError> {
        let mut secret = Secret::new();
        secret.push_str(self.0).unwrap();
        Ok(PinResponse { secret, repeated: true })
    }
    fn confirm(
        &mut self,
        _state: &State,
        _options: ConfirmOptions,
    ) -> Result<ConfirmOutcome, AssuanError> {
        Ok(ConfirmOutcome::Confirmed)
    }
    fn flavor(&self) -> &'static str {
        "repeated"
    }
}

/// Declines every confirmation.
struct Declining;

impl Backend for Declining {
    fn get_pin(&mut self, _state: &State) -> Result<PinResponse, AssuanError> {
        Err(AssuanError::timeout())
    }
    fn confirm(
        &mut self,
        _state: &State,
        _options: ConfirmOptions,
    ) -> Result<ConfirmOutcome, AssuanError> {
        Ok(ConfirmOutcome::Declined)
    }
    fn flavor(&self) -> &'static str {
        "declining"
    }
}

#[test]
fn pin_repeated_status_precedes_the_data() {
    let out = run_session(RepeatedPin("s3cret"), "SETREPEAT Repeat:\nGETPIN\n");
    assert!(
        out.contains("S PIN_REPEATED\nD s3cret\nOK\n"),
        "status must come right before the data: {out}"
    );
}

#[test]
fn a_single_entry_sends_no_pin_repeated() {
    let out = run_session(FixedPin("s3cret"), "SETREPEAT Repeat:\nGETPIN\n");
    assert!(!out.contains("PIN_REPEATED"), "{out}");
}

#[test]
fn greets_on_connect() {
    let out = run_session(NullBackend::new(), "");
    assert_eq!(out, "OK Pleased to meet you\n");
}

#[test]
fn bye_closes_the_connection() {
    let out = run_session(NullBackend::new(), "BYE\n");
    assert!(out.ends_with("OK closing connection\n"), "{out}");
}

#[test]
fn stops_reading_after_bye() {
    let out = run_session(NullBackend::new(), "BYE\nGETPIN\n");
    assert_eq!(out.matches("OK").count(), 2, "{out}");
    assert!(!out.contains("ERR"), "{out}");
}

#[test]
fn unknown_command_reports_unknown_ipc_command() {
    let out = run_session(NullBackend::new(), "FLYAWAY\n");
    assert!(out.contains("ERR 83886355 Unknown IPC command"), "{out}");
}

#[test]
fn commands_are_case_insensitive() {
    let out = run_session(NullBackend::new(), "nop\nNoP\n");
    assert_eq!(out.matches("OK\n").count(), 2, "{out}");
}

#[test]
fn comments_and_blank_lines_are_ignored() {
    let out = run_session(NullBackend::new(), "# a comment\n\nNOP\n");
    assert_eq!(out.matches("OK").count(), 2, "{out}");
}

#[test]
fn getpin_returns_data_then_ok() {
    let out = run_session(FixedPin("hunter2"), "GETPIN\n");
    assert!(out.contains("D hunter2\n"), "{out}");
    assert!(out.trim_end().ends_with("OK"), "{out}");
}

#[test]
fn getpin_escapes_percent_in_the_passphrase() {
    let out = run_session(FixedPin("100%sure"), "GETPIN\n");
    assert!(out.contains("D 100%25sure\n"), "{out}");
}

#[test]
fn getpin_cancel_reports_the_canceled_code() {
    let out = run_session(NullBackend::new(), "GETPIN\n");
    assert!(out.contains("ERR 83886179 Operation cancelled"), "{out}");
}

#[test]
fn confirm_cancel_maps_to_canceled() {
    let out = run_session(NullBackend::new(), "CONFIRM\n");
    assert!(out.contains("ERR 83886179"), "{out}");
}

#[test]
fn message_always_succeeds_even_when_the_backend_cancels() {
    let out = run_session(NullBackend::new(), "MESSAGE\n");
    assert!(!out.contains("ERR"), "{out}");
}

#[test]
fn setdesc_is_percent_decoded() {
    let mut server = Server::new(NullBackend::new());
    let mut out = Vec::new();
    server.run("SETDESC Enter%20passphrase%0Afor%20key\nBYE\n", &mut out);
    assert_eq!(
        server.state().request.description.as_deref(),
        Some("Enter passphrase\nfor key")
    );
}

#[test]
fn option_parses_key_value_form() {
    let mut server = Server::new(NullBackend::new());
    let mut out = Vec::new();
    server.run("OPTION ttyname=/dev/pts/7\nOPTION owner=4242/1000 nixos\n", &mut out);
    assert_eq!(server.state().options.ttyname.as_deref(), Some("/dev/pts/7"));
    let owner = server.state().options.owner.clone().unwrap();
    assert_eq!(owner.pid, Some(4242));
    assert_eq!(owner.host.as_deref(), Some("nixos"));
}

#[test]
fn option_accepts_leading_dashes_and_bare_flags() {
    let mut server = Server::new(NullBackend::new());
    let mut out = Vec::new();
    server.run("OPTION --no-grab\n", &mut out);
    assert!(!server.state().options.grab);
}

#[test]
fn reset_clears_the_prompt_but_keeps_the_tty() {
    let mut server = Server::new(NullBackend::new());
    let mut out = Vec::new();
    server.run("OPTION ttyname=/dev/pts/1\nSETDESC hello\nRESET\n", &mut out);
    assert_eq!(server.state().options.ttyname.as_deref(), Some("/dev/pts/1"));
    assert_eq!(server.state().request.description, None);
}

#[test]
fn settimeout_is_recorded_and_garbage_is_ignored() {
    let mut server = Server::new(NullBackend::new());
    let mut out = Vec::new();
    server.run("SETTIMEOUT 30\n", &mut out);
    assert_eq!(server.state().options.timeout_secs, 30);

    let mut server = Server::new(NullBackend::new());
    let mut out = Vec::new();
    server.run("SETTIMEOUT nonsense\n", &mut out);
    assert_eq!(server.state().options.timeout_secs, 60);
}

#[test]
fn settimeout_survives_reset() {
    let mut server = Server::new(NullBackend::new());
    let mut out = Vec::new();
    server.run("SETTIMEOUT 300\nRESET\n", &mut out);
    assert_eq!(server.state().options.timeout_secs, 300);
}

#[test]
fn setqualitybar_defaults_its_label() {
    let mut server = Server::new(NullBackend::new());
    let mut out = Vec::new();
    server.run("SETQUALITYBAR\n", &mut out);
    assert_eq!(server.state().request.quality_bar.as_deref(), Some("Quality:"));
}

#[test]
fn setkeyinfo_clear_removes_the_identifier() {
    let mut server = Server::new(NullBackend::new());
    let mut out = Vec::new();
    server.run("SETKEYINFO n/ABCD\nSETKEYINFO --clear\n", &mut out);
    assert_eq!(server.state().request.keyinfo, None);
}

#[test]
fn getinfo_version_and_flavor() {
    let out = run_session(FixedPin("x"), "GETINFO version\nGETINFO flavor\n");
    assert!(out.contains(&format!("D {}", "0.1.0")), "{out}");
    assert!(out.contains("D fixed"), "{out}");
}

#[test]
fn getinfo_rejects_unknown_keys() {
    let out = run_session(NullBackend::new(), "GETINFO wat\n");
    assert!(out.contains("ERR 83886360"), "{out}");
}

#[test]
fn long_passphrase_is_split_across_data_lines() {
    let long: &'static str = Box::leak("a".repeat(700).into_boxed_str());
    let out = run_session(FixedPin(long), "GETPIN\n");
    let data_lines: Vec<_> = out.lines().filter(|l| l.starts_with("D ")).collect();
    assert!(data_lines.len() > 1, "expected chunking, got {data_lines:?}");
    for line in &data_lines {
        assert!(line.len() < 1000, "line too long: {}", line.len());
    }
    let joined: String = data_lines.iter().map(|l| &l[2..]).collect();
    assert_eq!(joined, long);
}

#[test]
fn error_is_cleared_between_prompts() {
    let mut server = Server::new(NullBackend::new());
    let mut out = Vec::new();
    server.run("SETERROR Bad passphrase\nGETPIN\n", &mut out);
    assert_eq!(server.state().request.error, None);
}

// ---- further cases ----

#[test]
fn a_full_session_transcript_is_exact() {
    let out = run_session(FixedPin("pw"), "SETDESC x\nGETPIN\nBYE\n");
    assert_eq!(
        out,
        "OK Pleased to meet you\nOK\nD pw\nOK\nOK closing connection\n"
    );
}

#[test]
fn an_empty_passphrase_is_a_single_empty_data_line() {
    let out = run_session(FixedPin(""), "GETPIN\n");
    assert_eq!(out, "OK Pleased to meet you\nD \nOK\n");
}

#[test]
fn declined_confirm_maps_to_not_confirmed() {
    let out = run_session(Declining, "CONFIRM\n");
    assert!(out.contains("ERR 83886194 Not confirmed"), "{out}");
}

#[test]
fn a_frontend_error_is_reported_as_is() {
    let out = run_session(Declining, "GETPIN\n");
    assert!(out.contains("ERR 83886142 Timeout"), "{out}");
}

#[test]
fn confirmed_confirm_is_ok() {
    let out = run_session(FixedPin("x"), "CONFIRM --one-button\n");
    assert_eq!(out, "OK Pleased to meet you\nOK\n");
}

#[test]
fn getinfo_pid_needs_host_information() {
    let out = run_session(NullBackend::new(), "GETINFO pid\n");
    assert!(out.starts_with("OK Pleased to meet you\nERR "), "{out}");

    let mut server = Server::new(NullBackend::new());
    server.set_host(HostInfo { pid: 4242, euid: 1000, egid: 100 });
    let mut out = Vec::new();
    server.run("GETINFO pid\n", &mut out);
    assert_eq!(
        String::from_utf8(out).unwrap(),
        "OK Pleased to meet you\nD 4242\nOK\n"
    );
}

#[test]
fn handle_line_answers_one_line_at_a_time() {
    let mut server = Server::new(NullBackend::new());
    let mut out = Vec::new();
    server.handle_line("NOP", &mut out);
    assert_eq!(out, b"OK\n");
    assert!(!server.is_finished());
    server.handle_line("BYE", &mut out);
    assert!(server.is_finished());
    assert_eq!(out, b"OK\nOK closing connection\n");
}

#[test]
fn a_line_with_a_carriage_return_is_understood() {
    let out = run_session(NullBackend::new(), "NOP\r\n");
    assert_eq!(out, "OK Pleased to meet you\nOK\n");
}

#[test]
fn a_missing_final_newline_still_counts_as_a_line() {
    let out = run_session(NullBackend::new(), "NOP");
    assert_eq!(out, "OK Pleased to meet you\nOK\n");
}

#[test]
fn set_commands_store_their_decoded_argument() {
    let mut server = Server::new(NullBackend::new());
    let mut out = Vec::new();
    server.run("SETPROMPT PIN%3a\nSETOK Yes\nSETCANCEL No\nSETTITLE t\n", &mut out);
    let st = server.state();
    assert_eq!(st.request.prompt.as_deref(), Some("PIN:"));
    assert_eq!(st.effective_prompt(), "PIN:");
    assert_eq!(st.effective_ok(), "Yes");
    assert_eq!(st.effective_cancel(), "No");
    assert_eq!(st.request.title.as_deref(), Some("t"));
}
