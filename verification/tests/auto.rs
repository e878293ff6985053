use dank_pinentry::assuan::error::ASS_NO_INPUT;
use dank_pinentry::backend::auto::{select_frontend, AutoBackend, Frontend, Probe};
use dank_pinentry::config::{Config, UiPreference};

fn config_with(ui: UiPreference) -> Config {
    Config {
        ui,
        socket_path: Some("/nonexistent/dank-pinentry-test.sock".into()),
        ..Config::default()
    }
}

/// Reports fixed availabilities and counts the questions asked.
struct Fixed {
    tty: bool,
    dms: bool,
    asked_tty: usize,
    asked_dms: usize,
}

impl Fixed {
    fn new(tty: bool, dms: bool) -> Self {
        Fixed { tty, dms, asked_tty: 0, asked_dms: 0 }
    }
}

impl Probe for Fixed {
    fn tty_available(&mut self) -> bool {
        self.asked_tty += 1;
        self.tty
    }
    fn dms_available(&mut self) -> bool {
        self.asked_dms += 1;
        self.dms
    }
}

#[test]
fn flavor_before_selection_is_generic() {
    let backend = AutoBackend::new(config_with(UiPreference::Auto));
    assert_eq!(backend.flavor(), "dank");
}

#[test]
fn explicit_tty_does_not_fall_through_to_a_dialog() {
    // The terminal named by the agent does not exist; the plugin would answer.
    let mut backend = AutoBackend::new(config_with(UiPreference::Tty));
    let mut probe = Fixed::new(false, true);
    assert!(backend.resolve(&mut probe).is_err());
    assert_eq!(probe.asked_dms, 0);
}

#[test]
fn explicit_dms_fails_when_the_plugin_is_absent() {
    let mut backend = AutoBackend::new(config_with(UiPreference::Dms));
    let mut probe = Fixed::new(true, false);
    assert!(backend.resolve(&mut probe).is_err());
}

#[test]
fn auto_errors_when_nothing_is_usable() {
    let mut backend = AutoBackend::new(config_with(UiPreference::Auto));
    let mut probe = Fixed::new(false, false);
    let err = backend.resolve(&mut probe).unwrap_err();
    assert_eq!(err.code, ASS_NO_INPUT);
    assert_eq!(backend.chosen(), None);
}

// ---- further cases ----

#[test]
fn auto_prefers_the_terminal() {
    let mut backend = AutoBackend::new(config_with(UiPreference::Auto));
    let mut probe = Fixed::new(true, true);
    assert_eq!(backend.resolve(&mut probe).unwrap(), Frontend::Tty);
    assert_eq!(backend.flavor(), "dank:tty");
    assert_eq!(probe.asked_dms, 0);
}

#[test]
fn auto_falls_back_to_the_plugin() {
    let mut backend = AutoBackend::new(config_with(UiPreference::Auto));
    let mut probe = Fixed::new(false, true);
    assert_eq!(backend.resolve(&mut probe).unwrap(), Frontend::Dms);
    assert_eq!(backend.flavor(), "dank:dms");
}

#[test]
fn the_choice_sticks_for_the_session() {
    let mut backend = AutoBackend::new(config_with(UiPreference::Auto));
    let mut probe = Fixed::new(false, true);
    assert_eq!(backend.resolve(&mut probe).unwrap(), Frontend::Dms);
    let mut later = Fixed::new(true, false);
    assert_eq!(backend.resolve(&mut later).unwrap(), Frontend::Dms);
    assert_eq!(later.asked_tty + later.asked_dms, 0);
}

#[test]
fn the_terminal_frontend_uses_the_configured_mask() {
    let mut config = config_with(UiPreference::Tty);
    config.mask_char = Some('#');
    assert_eq!(AutoBackend::tty(&config).flavor(), "dank:tty");
    let state = dank_pinentry::assuan::state::State::new();
    assert_eq!(AutoBackend::tty(&config).mask_char(&state), '#');
    assert_eq!(AutoBackend::tty(&Config::default()).mask_char(&state), '*');
}

#[test]
fn selection_follows_the_preference() {
    assert_eq!(select_frontend(UiPreference::Tty, false, true), None);
    assert_eq!(select_frontend(UiPreference::Tty, true, false), Some(Frontend::Tty));
    assert_eq!(select_frontend(UiPreference::Dms, true, false), None);
    assert_eq!(select_frontend(UiPreference::Dms, false, true), Some(Frontend::Dms));
    assert_eq!(select_frontend(UiPreference::Auto, true, true), Some(Frontend::Tty));
    assert_eq!(select_frontend(UiPreference::Auto, false, true), Some(Frontend::Dms));
    assert_eq!(select_frontend(UiPreference::Auto, false, false), None);
}
