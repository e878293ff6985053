use dank_pinentry::config::{join_path, Config, UiPreference};

#[test]
fn defaults_to_auto() {
    let config = Config::default();
    assert_eq!(config.ui, UiPreference::Auto);
    assert_eq!(config.socket_path, None);
    assert_eq!(config.mask_char, None);
}

#[test]
fn socket_path_falls_back_to_the_runtime_dir_default() {
    let config = Config::default();
    let path = config.socket_path(Some("/run/user/1000"));
    assert!(path.ends_with("dms-pinentry.sock"), "{}", path);
}

#[test]
fn explicit_socket_path_wins_over_the_default() {
    let config = Config {
        socket_path: Some("/tmp/explicit.sock".into()),
        ..Config::default()
    };
    assert_eq!(config.socket_path(Some("/run/user/1000")), "/tmp/explicit.sock");
}

#[test]
fn command_line_ui_values_map_the_same_way_as_config_values() {
    for value in ["tty", "curses", "terminal"] {
        assert_eq!(UiPreference::parse(value), Some(UiPreference::Tty));
    }
    for value in ["dms", "gui", "dank"] {
        assert_eq!(UiPreference::parse(value), Some(UiPreference::Dms));
    }
    assert_eq!(UiPreference::parse("AUTO"), Some(UiPreference::Auto));
    assert_eq!(UiPreference::parse("nonsense"), None);
}

// ---- further cases ----

#[test]
fn ui_names_are_trimmed() {
    assert_eq!(UiPreference::parse("  Tty\n"), Some(UiPreference::Tty));
    assert_eq!(UiPreference::parse(""), None);
}

#[test]
fn default_socket_path_layout() {
    assert_eq!(Config::default_socket_path(Some("/run/user/1000")), "/run/user/1000/dms-pinentry.sock");
    assert_eq!(Config::default_socket_path(Some("/run/user/1000/")), "/run/user/1000/dms-pinentry.sock");
    assert_eq!(Config::default_socket_path(Some("")), "/tmp/dms-pinentry.sock");
    assert_eq!(Config::default_socket_path(None), "/tmp/dms-pinentry.sock");
}

#[test]
fn config_path_layout() {
    assert_eq!(
        Config::config_path(Some("/home/a/.cfg"), Some("/home/a")).as_deref(),
        Some("/home/a/.cfg/dank-pinentry/config.toml")
    );
    assert_eq!(
        Config::config_path(Some(""), Some("/home/a")).as_deref(),
        Some("/home/a/.config/dank-pinentry/config.toml")
    );
    assert_eq!(
        Config::config_path(None, Some("/home/a")).as_deref(),
        Some("/home/a/.config/dank-pinentry/config.toml")
    );
    assert_eq!(Config::config_path(None, None), None);
    assert_eq!(Config::config_path(Some(""), None), None);
}

#[test]
fn join_path_adds_one_separator() {
    let base: Vec<char> = "a/".chars().collect();
    assert_eq!(join_path(&base, "b"), vec!['a', '/', 'b']);
    assert_eq!(join_path(&[], "b"), vec!['b']);
}

#[test]
fn the_default_preference_is_auto() {
    assert_eq!(UiPreference::default(), UiPreference::Auto);
}
