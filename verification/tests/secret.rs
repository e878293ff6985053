use dank_pinentry::secret::{Secret, SecretError, DEFAULT_CAPACITY};

#[test]
fn accumulates_bytes() {
    let mut s = Secret::new();
    s.push_str("hunter").unwrap();
    s.push_str("2").unwrap();
    assert_eq!(s.as_bytes(), b"hunter2");
    assert_eq!(s.len(), 7);
}

#[test]
fn refuses_to_grow_past_capacity() {
    let mut s = Secret::with_capacity(4);
    assert!(s.push_str("abcd").is_ok());
    assert_eq!(s.push_str("e"), Err(SecretError::Full));
    assert_eq!(s.as_bytes(), b"abcd");
}

#[test]
fn capacity_is_stable_so_the_locked_region_stays_valid() {
    let mut s = Secret::with_capacity(64);
    let before = s.as_bytes().as_ptr();
    s.push_str("some passphrase").unwrap();
    assert_eq!(s.as_bytes().as_ptr(), before);
    assert_eq!(s.capacity(), 64);
}

#[test]
fn pop_char_removes_whole_multibyte_characters() {
    let mut s = Secret::new();
    s.push_str("aé").unwrap();
    assert_eq!(s.len(), 3);
    s.pop_char();
    assert_eq!(s.as_bytes(), b"a");
    s.pop_char();
    assert!(s.is_empty());
    s.pop_char();
    assert!(s.is_empty());
}

#[test]
fn clear_wipes_contents() {
    let mut s = Secret::new();
    s.push_str("hunter2").unwrap();
    s.clear();
    assert!(s.is_empty());
}

#[test]
fn debug_never_reveals_the_passphrase() {
    let mut s = Secret::new();
    s.push_str("hunter2").unwrap();
    let rendered = format!("{s:?}");
    assert!(!rendered.contains("hunter2"), "leaked: {rendered}");
    assert!(rendered.contains("len"));
}

// ---- further cases ----

#[test]
fn default_capacity_and_bytes() {
    let mut s = Secret::default();
    assert_eq!(s.capacity(), DEFAULT_CAPACITY);
    assert!(!s.is_locked());
    assert!(s.push_bytes(&[0xE2, 0x82, 0xAC]).is_ok());
    assert_eq!(s.as_bytes(), "€".as_bytes());
    s.pop_char();
    assert!(s.is_empty());
}

#[test]
fn the_full_error_has_a_message() {
    assert_eq!(SecretError::Full.message(), "passphrase exceeds buffer capacity");
}

#[test]
fn a_secret_can_be_filled_exactly() {
    let mut s = Secret::with_capacity(2);
    assert!(s.push_bytes(b"ab").is_ok());
    assert_eq!(s.push_bytes(b"c"), Err(SecretError::Full));
    assert!(s.push_bytes(b"").is_ok());
    assert_eq!(s.as_bytes(), b"ab");
}
