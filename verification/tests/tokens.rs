use std::collections::HashSet;

use articwake::auth::sessions::{SessionStore, TOKEN_EXPIRY_MS};
use articwake::auth::token::{encode_token, generate_token};
use articwake::auth::AuthError;

fn is_lower_hex(c: char) -> bool {
    matches!(c, '0'..='9' | 'a'..='f')
}

#[test]
fn test_generate_token_length() {
    let token = generate_token();
    assert_eq!(token.len(), 64); // 32 bytes = 64 hex chars
}

#[test]
fn test_generate_token_unique() {
    let token1 = generate_token();
    let token2 = generate_token();
    assert_ne!(token1, token2);
}

#[test]
fn generated_token_is_lowercase_hex() {
    for _ in 0..100 {
        let token = generate_token();
        assert_eq!(token.chars().count(), 64);
        assert!(token.chars().all(is_lower_hex));
    }
}

#[test]
fn generated_tokens_use_all_positions() {
    // A token that were its random bytes handed back unencoded, or a
    // constant, would not show sixteen different digits over many draws.
    let mut seen = HashSet::new();
    for _ in 0..64 {
        for c in generate_token().chars() {
            seen.insert(c);
        }
    }
    assert_eq!(seen.len(), 16);
}

#[test]
fn issue_gives_ten_thousand_distinct_tokens() {
    let mut store = SessionStore::new();
    let mut seen = HashSet::new();
    for i in 0..10_000u64 {
        let token = store.issue(i);
        assert_eq!(token.len(), 64);
        assert!(seen.insert(token));
    }
}

#[test]
fn issued_token_validates_until_expiry() {
    let mut store = SessionStore::new();
    let token = store.issue(1_000);
    assert!(store.validate(&token, 1_000).is_ok());
    assert!(store.validate(&token, 1_000 + TOKEN_EXPIRY_MS - 1).is_ok());
    assert!(matches!(
        store.validate(&token, 1_000 + TOKEN_EXPIRY_MS),
        Err(AuthError::InvalidToken)
    ));
}

#[test]
fn token_expired_after_sixteen_minutes() {
    let mut store = SessionStore::new();
    let token = store.issue(0);
    let sixteen_minutes = 16 * 60 * 1000;
    assert!(matches!(
        store.validate(&token, sixteen_minutes),
        Err(AuthError::InvalidToken)
    ));
}

#[test]
fn unknown_and_expired_tokens_get_the_same_error() {
    let mut store = SessionStore::new();
    let token = store.issue(0);
    let expired = store.validate(&token, TOKEN_EXPIRY_MS).unwrap_err();
    let unknown = store.validate("never-issued", TOKEN_EXPIRY_MS).unwrap_err();
    assert!(matches!(expired, AuthError::InvalidToken));
    assert!(matches!(unknown, AuthError::InvalidToken));
    assert_eq!(expired.message(), unknown.message());
}

#[test]
fn expired_session_stays_invalid_while_it_is_still_stored() {
    // Nothing sweeps the store between the issue and the check.
    let mut store = SessionStore::new();
    let token = store.issue(5);
    assert!(store.validate(&token, 5 + TOKEN_EXPIRY_MS + 1).is_err());
}

#[test]
fn issue_sweeps_expired_sessions_and_keeps_live_ones() {
    let mut store = SessionStore::new();
    let old = store.issue(0);
    let young = store.issue(TOKEN_EXPIRY_MS - 10);
    // At this time the first has expired, the second has not.
    let at = TOKEN_EXPIRY_MS + 5;
    let newest = store.issue(at);
    assert!(store.validate(&old, at).is_err());
    assert!(store.validate(&young, at).is_ok());
    assert!(store.validate(&newest, at).is_ok());
    // A clock that went back would not bring the swept session back.
    assert!(store.validate(&old, 1).is_err());
}

#[test]
fn sweep_drops_exactly_the_expired() {
    let mut store = SessionStore::new();
    let a = store.issue(0);
    let b = store.issue(100);
    store.sweep(TOKEN_EXPIRY_MS);
    assert!(store.validate(&a, 1).is_err());
    assert!(store.validate(&b, 1).is_ok());
}

#[test]
fn recording_a_token_again_starts_a_new_lifetime() {
    let mut store = SessionStore::new();
    store.record("same", 0);
    store.record("same", 500);
    assert!(store.validate("same", TOKEN_EXPIRY_MS + 100).is_ok());
    assert!(store.validate("same", TOKEN_EXPIRY_MS + 500).is_err());
}

#[test]
fn token_of_given_bytes() {
    let mut bytes = [0u8; 32];
    for (i, b) in bytes.iter_mut().enumerate() {
        *b = (i as u8).wrapping_mul(17).wrapping_add(0xa5);
    }
    bytes[0] = 0x00;
    bytes[1] = 0x0f;
    bytes[2] = 0xf0;
    bytes[31] = 0xff;
    let token = encode_token(&bytes);
    let expected: String = bytes.iter().map(|b| format!("{:02x}", b)).collect();
    assert_eq!(token, expected);
    assert!(token.starts_with("000ff0"));
    assert!(token.ends_with("ff"));
}

#[test]
fn token_outlives_later_issues_but_not_its_lifetime() {
    let mut store = SessionStore::new();
    let first = store.issue(0);
    for t in 1..50u64 {
        store.issue(t * 10_000);
    }
    // 490 s after the first issue: still valid, whatever came since.
    assert!(store.validate(&first, 490_000).is_ok());
    store.issue(TOKEN_EXPIRY_MS);
    assert!(store.validate(&first, TOKEN_EXPIRY_MS).is_err());
}
