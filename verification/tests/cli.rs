use dank_pinentry::cli::Cli;
use dank_pinentry::config::{Config, UiPreference};

fn with_ui(ui: &str) -> Cli {
    let mut cli = Cli::empty();
    cli.ui = Some(ui.to_string());
    cli
}

#[test]
fn options_are_seeded_from_argv() {
    let mut cli = Cli::empty();
    cli.ttyname = Some("/dev/pts/9".into());
    cli.no_global_grab = true;
    let options = cli.to_options();
    assert_eq!(options.ttyname.as_deref(), Some("/dev/pts/9"));
    assert!(!options.grab);
}

#[test]
fn grab_defaults_to_on() {
    assert!(Cli::empty().to_options().grab);
}

#[test]
fn owner_is_parsed_into_structured_form() {
    let mut cli = Cli::empty();
    cli.owner = Some("4242/1000 nixos".into());
    let options = cli.to_options();
    let owner = options.owner.expect("owner parsed");
    assert_eq!(owner.pid, Some(4242));
    assert_eq!(owner.uid, Some(1000));
    assert_eq!(owner.host.as_deref(), Some("nixos"));
}

#[test]
fn ui_preference_maps_known_values() {
    assert_eq!(with_ui("tty").ui_preference(), Some(UiPreference::Tty));
    assert_eq!(with_ui("dms").ui_preference(), Some(UiPreference::Dms));
    assert_eq!(with_ui("auto").ui_preference(), Some(UiPreference::Auto));
}

#[test]
fn unknown_ui_value_is_ignored_rather_than_fatal() {
    assert_eq!(with_ui("wayland").ui_preference(), None);
}

#[test]
fn absent_ui_flag_leaves_the_choice_to_config() {
    assert_eq!(Cli::empty().ui_preference(), None);
}

// ---- further cases ----

#[test]
fn every_seeded_option_is_copied() {
    let mut cli = Cli::empty();
    cli.display = Some(":0".into());
    cli.ttytype = Some("xterm".into());
    cli.lc_ctype = Some("en_GB.UTF-8".into());
    cli.lc_messages = Some("de_DE.UTF-8".into());
    cli.ttyalert = Some("beep".into());
    cli.parent_wid = Some(12345);
    cli.timeout = Some(30);
    cli.colors = Some("blue,black".into());
    let o = cli.to_options();
    assert_eq!(o.display.as_deref(), Some(":0"));
    assert_eq!(o.ttytype.as_deref(), Some("xterm"));
    assert_eq!(o.lc_ctype.as_deref(), Some("en_GB.UTF-8"));
    assert_eq!(o.lc_messages.as_deref(), Some("de_DE.UTF-8"));
    assert_eq!(o.ttyalert.as_deref(), Some("beep"));
    assert_eq!(o.parent_wid, Some(12345));
    // `--timeout` does not seed the prompt timeout.
    assert_eq!(o.timeout_secs, 60);
    assert!(o.grab);
}

#[test]
fn the_ui_flag_beats_the_configuration() {
    let config = Config { ui: UiPreference::Dms, mask_char: Some('#'), ..Config::default() };
    let applied = with_ui("tty").apply_ui(config.clone());
    assert_eq!(applied.ui, UiPreference::Tty);
    assert_eq!(applied.mask_char, Some('#'));
    assert_eq!(with_ui("bogus").apply_ui(config.clone()).ui, UiPreference::Dms);
    assert_eq!(Cli::empty().apply_ui(config).ui, UiPreference::Dms);
}

#[test]
fn the_timeout_flag_beats_the_configured_timeout() {
    let configured = Config { timeout: Some(120), ..Config::default() };
    let mut cli = Cli::empty();
    assert_eq!(cli.initial_state(&Config::default()).options.timeout_secs, 60);
    assert_eq!(cli.initial_state(&configured).options.timeout_secs, 120);
    cli.timeout = Some(0);
    cli.ttyname = Some("/dev/pts/2".into());
    let state = cli.initial_state(&configured);
    assert_eq!(state.options.timeout_secs, 0);
    assert_eq!(state.options.ttyname.as_deref(), Some("/dev/pts/2"));
    assert_eq!(state.request.description, None);
}
