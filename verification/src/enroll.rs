//! Enrolling a PIN: making the salted hash that the login checks against.

use vstd::prelude::*;
use vstd::string::*;
use crate::auth::credential::read_view;
use crate::text::{prefixed, str_view, trim, trimmed};

verus! {

/// Why no hash was made.
#[derive(Debug)]
pub enum HashPinError {
    /// There was no line to read the PIN from.
    NoInput,
    /// The line holds nothing but white space.
    EmptyPin,
    /// The hash function failed; the text says why.
    HashFailed(String),
}

/// Mathematical value of a [`HashPinError`].
pub ghost enum HashPinErrorView {
    NoInput,
    EmptyPin,
    HashFailed(Seq<char>),
}

impl View for HashPinError {
    type V = HashPinErrorView;

    open spec fn view(&self) -> HashPinErrorView {
        match self {
            HashPinError::NoInput => HashPinErrorView::NoInput,
            HashPinError::EmptyPin => HashPinErrorView::EmptyPin,
            HashPinError::HashFailed(m) => HashPinErrorView::HashFailed(m@),
        }
    }
}

/// Text shown for an error.
pub open spec fn hash_pin_error_text(e: HashPinErrorView) -> Seq<char> {
    match e {
        HashPinErrorView::NoInput => "No input provided"@,
        HashPinErrorView::EmptyPin => "PIN cannot be empty"@,
        HashPinErrorView::HashFailed(m) => "Failed to hash PIN: "@ + m,
    }
}

impl HashPinError {
    /// Human-readable description of the error.
    pub fn message(&self) -> (text: String)
        ensures
            text@ == hash_pin_error_text(self@),
    {
        match self {
            HashPinError::NoInput => "No input provided".to_owned(),
            HashPinError::EmptyPin => "PIN cannot be empty".to_owned(),
            HashPinError::HashFailed(m) => prefixed("Failed to hash PIN: ", m.as_str()),
        }
    }
}

/// The password hash that Argon2, set up as `argon2::Argon2::default()`,
/// makes of `pin` with the salt `salt`, as a PHC string; or the text of
/// the error with which it fails.
pub uninterp spec fn argon2_hash_of(pin: Seq<char>, salt: Seq<char>) -> Result<
    Seq<char>,
    Seq<char>,
>;

/// A fresh salt from `SaltString::generate`, fed by the random source of
/// the operating system, in its Base64 form.
///
/// Nothing is taken on trust of the salt: each call may hand back any.
#[verifier::external_body]
fn fresh_salt() -> (salt: String) {
    argon2::password_hash::SaltString::generate(
        &mut argon2::password_hash::rand_core::OsRng,
    ).as_str().to_owned()
}

/// Hashes `pin` with `PasswordHasher::hash_password` of
/// `argon2::Argon2::default()`, for which `salt` is first read with
/// `SaltString::from_b64`, and writes the hash out as a PHC string.
///
/// Taken on trust: the answer depends on `pin` and `salt` alone.
#[verifier::external_body]
fn argon2_hash(pin: &str, salt: &str) -> (hashed: Result<String, String>)
    ensures
        read_view(hashed) == argon2_hash_of(pin@, salt@),
{
    match argon2::password_hash::SaltString::from_b64(salt) {
        Ok(salt) => match argon2::PasswordHasher::hash_password(
            &argon2::Argon2::default(),
            pin.as_bytes(),
            &salt,
        ) {
            Ok(hash) => Ok(hash.to_string()),
            Err(e) => Err(e.to_string()),
        },
        Err(e) => Err(e.to_string()),
    }
}

/// Mathematical value of what [`hash_pin`] returns.
pub open spec fn enrollment_view(r: Result<String, HashPinError>) -> Result<
    Seq<char>,
    HashPinErrorView,
> {
    match r {
        Ok(hash) => Ok(hash@),
        Err(e) => Err(e@),
    }
}

/// What an enrollment yields, given what the hash function returned.
pub open spec fn enrollment_spec(hashed: Result<Seq<char>, Seq<char>>) -> Result<
    Seq<char>,
    HashPinErrorView,
> {
    match hashed {
        Ok(hash) => Ok(hash),
        Err(why) => Err(HashPinErrorView::HashFailed(why)),
    }
}

/// Ends an enrollment, given what the hash function returned.
pub fn enrollment(hashed: Result<String, String>) -> (r: Result<String, HashPinError>)
    ensures
        enrollment_view(r) == enrollment_spec(read_view(hashed)),
{
    match hashed {
        Ok(hash) => Ok(hash),
        Err(why) => Err(HashPinError::HashFailed(why)),
    }
}

/// Makes the hash of `pin`, taken as it stands, with a fresh salt. Two
/// calls give different hashes of the same PIN.
pub fn hash_secret(pin: &str) -> (r: Result<String, HashPinError>)
    ensures
        exists|salt: Seq<char>|
            enrollment_view(r) == enrollment_spec(#[trigger] argon2_hash_of(pin@, salt)),
{
    let salt = fresh_salt();
    let hashed = argon2_hash(pin, salt.as_str());
    enrollment(hashed)
}

/// Makes the hash of the PIN that stands on the line `input`, with a
/// fresh salt. White space around the PIN is not part of it. Without a
/// line, or with nothing on it, no hash is made.
pub fn hash_pin(input: Option<&str>) -> (r: Result<String, HashPinError>)
    ensures
        match str_view(input) {
            None => enrollment_view(r) == Err::<Seq<char>, HashPinErrorView>(
                HashPinErrorView::NoInput,
            ),
            Some(line) => if trimmed(line).len() == 0 {
                enrollment_view(r) == Err::<Seq<char>, HashPinErrorView>(
                    HashPinErrorView::EmptyPin,
                )
            } else {
                exists|salt: Seq<char>|
                    enrollment_view(r) == enrollment_spec(
                        #[trigger] argon2_hash_of(trimmed(line), salt),
                    )
            },
        },
{
    let line = match input {
        Some(line) => line,
        None => {
            return Err(HashPinError::NoInput);
        },
    };
    let pin = trim(line);
    if pin.is_empty() {
        return Err(HashPinError::EmptyPin);
    }
    hash_secret(pin)
}

} // verus!
