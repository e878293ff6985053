use dank_pinentry::owner::{
    format_cmdline, proc_path, process_name_from_comm, status_belongs_to_uid, truncate,
    MAX_COMMAND_LEN,
};

#[test]
fn formats_nul_separated_arguments() {
    assert_eq!(format_cmdline(b"git\0commit\0-S\0"), "git commit -S");
}

#[test]
fn ignores_empty_arguments() {
    assert_eq!(format_cmdline(b"a\0\0b\0"), "a b");
}

#[test]
fn empty_cmdline_yields_empty_string() {
    assert_eq!(format_cmdline(b""), "");
}

#[test]
fn long_command_lines_are_truncated() {
    let raw: Vec<u8> = "x".repeat(500).into_bytes();
    let formatted = format_cmdline(&raw);
    assert!(formatted.chars().count() <= MAX_COMMAND_LEN, "{formatted}");
    assert!(formatted.ends_with('…'));
}

#[test]
fn truncate_is_char_aware() {
    let text = "üüüüü";
    assert_eq!(truncate(text, 3), "üü…");
}

#[test]
fn proc_path_builds_expected_layout() {
    assert_eq!(proc_path(42, "cmdline").as_str(), "/proc/42/cmdline");
}

// ---- further cases ----

#[test]
fn short_text_is_not_truncated() {
    assert_eq!(truncate("abc", 3), "abc");
    assert_eq!(truncate("abcd", 3), "ab…");
}

#[test]
fn status_names_the_real_uid() {
    let status = "Name:\tbash\nUid:\t1000\t1000\t1000\t1000\nGid:\t100\n";
    assert!(status_belongs_to_uid(status, 1000));
    assert!(!status_belongs_to_uid(status, 0));
    assert!(!status_belongs_to_uid("Name:\tx\n", 1000));
}

#[test]
fn comm_yields_the_process_name() {
    assert_eq!(process_name_from_comm("bash\n").as_deref(), Some("bash"));
    assert_eq!(process_name_from_comm("  \n"), None);
}

#[test]
fn invalid_utf8_in_a_command_line_is_replaced() {
    assert_eq!(format_cmdline(b"a\xffb\0c"), "a\u{FFFD}b c");
}
