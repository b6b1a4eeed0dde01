use articwake::api::unlock::{validate_passphrase, PassphraseValidationError, MAX_PASSPHRASE_LEN};

#[test]
fn test_validate_passphrase_valid() {
    assert!(validate_passphrase("my-secure-passphrase").is_ok());
    assert!(validate_passphrase("a").is_ok());
    assert!(validate_passphrase("with spaces").is_ok());
    assert!(validate_passphrase("with-special-chars!@#$%^&*()").is_ok());
    assert!(validate_passphrase("unicode: äöü").is_ok());
}

#[test]
fn test_validate_passphrase_empty() {
    assert_eq!(validate_passphrase(""), Err(PassphraseValidationError::Empty));
}

#[test]
fn test_validate_passphrase_too_long() {
    let long_passphrase = "a".repeat(MAX_PASSPHRASE_LEN + 1);
    assert_eq!(
        validate_passphrase(&long_passphrase),
        Err(PassphraseValidationError::TooLong)
    );
}

#[test]
fn test_validate_passphrase_max_length_ok() {
    let max_passphrase = "a".repeat(MAX_PASSPHRASE_LEN);
    assert!(validate_passphrase(&max_passphrase).is_ok());
}

#[test]
fn test_validate_passphrase_control_chars() {
    // Null byte
    assert_eq!(
        validate_passphrase("pass\0word"),
        Err(PassphraseValidationError::ContainsControlChars)
    );
    // Newline
    assert_eq!(
        validate_passphrase("pass\nword"),
        Err(PassphraseValidationError::ContainsControlChars)
    );
    // Carriage return
    assert_eq!(
        validate_passphrase("pass\rword"),
        Err(PassphraseValidationError::ContainsControlChars)
    );
    // Tab
    assert_eq!(
        validate_passphrase("pass\tword"),
        Err(PassphraseValidationError::ContainsControlChars)
    );
    // Bell
    assert_eq!(
        validate_passphrase("pass\x07word"),
        Err(PassphraseValidationError::ContainsControlChars)
    );
    // Escape
    assert_eq!(
        validate_passphrase("pass\x1bword"),
        Err(PassphraseValidationError::ContainsControlChars)
    );
}

#[test]
fn test_validate_passphrase_shell_injection_attempts() {
    // Shell metacharacters are no control characters: the prompt reads
    // the line and runs nothing.
    assert!(validate_passphrase("; rm -rf /").is_ok());
    assert!(validate_passphrase("$(whoami)").is_ok());
    assert!(validate_passphrase("`id`").is_ok());
    assert!(validate_passphrase("| cat /etc/passwd").is_ok());
}

#[test]
fn passphrase_length_is_counted_in_bytes() {
    // 512 two-byte characters are 1024 bytes: the longest that passes.
    let fits = "ä".repeat(512);
    assert!(validate_passphrase(&fits).is_ok());
    let over = "ä".repeat(513);
    assert_eq!(validate_passphrase(&over), Err(PassphraseValidationError::TooLong));
}

#[test]
fn passphrase_checks_come_in_order() {
    // Too long and with a control character: the length is reported.
    let mut both = "a".repeat(MAX_PASSPHRASE_LEN);
    both.push('\n');
    assert_eq!(validate_passphrase(&both), Err(PassphraseValidationError::TooLong));
}

#[test]
fn passphrase_control_range_edges() {
    assert_eq!(
        validate_passphrase("a\u{1f}"),
        Err(PassphraseValidationError::ContainsControlChars)
    );
    assert!(validate_passphrase("a\u{20}").is_ok());
    assert!(validate_passphrase("a\u{7e}").is_ok());
    assert_eq!(
        validate_passphrase("a\u{7f}"),
        Err(PassphraseValidationError::ContainsControlChars)
    );
    assert_eq!(
        validate_passphrase("a\u{9f}"),
        Err(PassphraseValidationError::ContainsControlChars)
    );
    assert!(validate_passphrase("a\u{a0}").is_ok());
}
