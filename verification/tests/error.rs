use dank_pinentry::assuan::error::{
    gpg_error, write_err, AssuanError, ASS_PARAMETER, ASS_UNKNOWN_CMD, CANCELED,
    SOURCE_PINENTRY,
};

#[test]
fn cancel_matches_the_value_gpg_agent_logs() {
    assert_eq!(AssuanError::canceled().wire_value(), 83_886_179);
}

#[test]
fn source_is_pinentry_not_agent() {
    assert_eq!(gpg_error(0) >> 24, 5);
}

#[test]
fn not_confirmed_wire_value() {
    assert_eq!(AssuanError::not_confirmed().wire_value(), 83_886_194);
}

#[test]
fn error_code_sits_in_the_low_bits() {
    assert_eq!(gpg_error(CANCELED), (SOURCE_PINENTRY << 24) | 99);
    assert_eq!(gpg_error(ASS_UNKNOWN_CMD) & 0xFFFF, 275);
}

#[test]
fn error_text_is_wire_value_then_description() {
    assert_eq!(AssuanError::canceled().to_text(), "83886179 Operation cancelled");
    let e = AssuanError::new(ASS_PARAMETER, "bad");
    assert_eq!(e.to_text(), format!("{} bad", gpg_error(ASS_PARAMETER)));
}

#[test]
fn err_line_is_framed() {
    let mut out = Vec::new();
    write_err(&mut out, AssuanError::unknown_command());
    assert_eq!(out, format!("ERR {} Unknown IPC command\n", gpg_error(ASS_UNKNOWN_CMD)).into_bytes());
}
