use articwake::auth::credential::check_pin;
use articwake::enroll::{enrollment, hash_pin, HashPinError};

#[test]
fn hash_pin_without_input() {
    assert!(matches!(hash_pin(None), Err(HashPinError::NoInput)));
}

#[test]
fn hash_pin_with_blank_input() {
    assert!(matches!(hash_pin(Some("")), Err(HashPinError::EmptyPin)));
    assert!(matches!(hash_pin(Some("  \t\n")), Err(HashPinError::EmptyPin)));
}

#[test]
fn hash_pin_makes_an_argon2_phc_string() {
    let hash = hash_pin(Some("1234")).unwrap();
    assert!(hash.starts_with("$argon2id$v=19$"));
    assert_ne!(hash, "1234");
}

#[test]
fn hash_pin_salts_every_hash_anew() {
    let first = hash_pin(Some("1234")).unwrap();
    let second = hash_pin(Some("1234")).unwrap();
    assert_ne!(first, second);
}

#[test]
fn hash_pin_trims_the_line() {
    let hash = hash_pin(Some("  9876 \n")).unwrap();
    assert!(check_pin("9876", Ok(hash.clone())).is_ok());
    assert!(check_pin("  9876 \n", Ok(hash)).is_err());
}

#[test]
fn enrollment_maps_a_failure() {
    match enrollment(Err("salt invalid".to_string())) {
        Err(HashPinError::HashFailed(why)) => assert_eq!(why, "salt invalid"),
        other => panic!("unexpected: {:?}", other),
    }
    assert_eq!(enrollment(Ok("$h".to_string())).unwrap(), "$h");
}

#[test]
fn hash_pin_error_messages() {
    assert_eq!(HashPinError::NoInput.message(), "No input provided");
    assert_eq!(HashPinError::EmptyPin.message(), "PIN cannot be empty");
    assert_eq!(
        HashPinError::HashFailed("x".to_string()).message(),
        "Failed to hash PIN: x"
    );
}
