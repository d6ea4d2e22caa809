use tinycloud_session::error::{ErrorKind, SessionError};
use tinycloud_session::text::{byte_is_alphanumeric, join2, join3, push_bytes, push_decimal};

#[test]
fn texts_are_joined_in_order() {
    assert_eq!(join2("key not found: ", "a"), "key not found: a");
    assert_eq!(join2("", ""), "");
    assert_eq!(join3("Key ", "é", " does not exist."), "Key é does not exist.");
}

#[test]
fn numbers_are_written_in_decimal() {
    for (n, digits) in [(0usize, "0"), (7, "7"), (10, "10"), (99, "99"), (100, "100"), (1234567890, "1234567890")] {
        let mut out = b"n=".to_vec();
        push_decimal(&mut out, n);
        assert_eq!(out, format!("n={}", digits).into_bytes());
    }
    let mut out = Vec::new();
    push_decimal(&mut out, usize::MAX);
    assert_eq!(out, format!("{}", usize::MAX).into_bytes());
}

#[test]
fn bytes_are_appended() {
    let mut out = vec![1u8, 2];
    push_bytes(&mut out, &[3, 4, 5]);
    push_bytes(&mut out, &[]);
    assert_eq!(out, vec![1, 2, 3, 4, 5]);
}

#[test]
fn letters_and_digits_are_alphanumeric() {
    for b in 0u8..=255 {
        assert_eq!(byte_is_alphanumeric(b), (b as char).is_ascii_alphanumeric());
    }
}

#[test]
fn failure_shows_its_detail() {
    let e = SessionError::new(ErrorKind::KeyNotFound, "key not found: a".to_string());
    assert_eq!(e.kind, ErrorKind::KeyNotFound);
    assert_eq!(e.message(), "key not found: a");
    assert_eq!(e, SessionError { kind: ErrorKind::KeyNotFound, detail: "key not found: a".to_string() });
}
