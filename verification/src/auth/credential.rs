//! The PIN check: what was typed against the stored password hash.
//!
//! The hash is kept outside the process, in one file, as a salted hash in
//! the PHC string format. It is read anew for every attempt, so a new PIN
//! takes effect at once; this module is handed what was read. Neither the
//! PIN nor the hash is kept or logged.

use vstd::prelude::*;
use vstd::string::*;
use crate::auth::{unit_result_view, AuthError, AuthErrorView};
use crate::text::{trim, trimmed};

verus! {

/// What `argon2::PasswordHash::new` finds wrong with the text `hash`, in
/// the words of its error; `None` where the text is a password hash.
pub uninterp spec fn phc_parse_error(hash: Seq<char>) -> Option<Seq<char>>;

/// Whether Argon2, set up as `argon2::Argon2::default()`, finds that the
/// password hash written in `hash` is one of `pin`.
pub uninterp spec fn argon2_accepts(pin: Seq<char>, hash: Seq<char>) -> bool;

/// The parameters that `argon2::PasswordHash::new` finds in the text
/// `hash`, each with its name and its value as they are written, in the
/// order in which they are written; none where the text is no password
/// hash.
pub uninterp spec fn phc_params(hash: Seq<char>) -> Seq<(Seq<char>, Seq<char>)>;

/// Name of the parameter that sets Argon2's degree of parallelism.
pub const LANES_PARAM: &'static str = "p";

/// Greatest number of characters of a degree of parallelism that Argon2 is
/// asked about. It admits at most 16,777,215 lanes, a number of eight
/// digits.
pub const MAX_LANES_CHARS: usize = 8;

/// The degree of parallelism that `params` set, as it is written: the
/// value of the last parameter of that name, which is the one that counts.
pub open spec fn lanes_setting(params: Seq<(Seq<char>, Seq<char>)>) -> Option<Seq<char>>
    decreases params.len(),
{
    if params.len() == 0 {
        None
    } else if params.last().0 == LANES_PARAM@ {
        Some(params.last().1)
    } else {
        lanes_setting(params.drop_last())
    }
}

/// Whether Argon2 is asked about a hash with the parameters `params`: its
/// degree of parallelism is left to the default or written with no more
/// than eight characters. A longer one is a number beyond what Argon2
/// admits, or no number.
pub open spec fn lanes_admitted(params: Seq<(Seq<char>, Seq<char>)>) -> bool {
    match lanes_setting(params) {
        Some(value) => value.len() <= MAX_LANES_CHARS,
        None => true,
    }
}

/// Mathematical value of a list of parameters.
pub open spec fn params_view(params: Seq<(String, String)>) -> Seq<(Seq<char>, Seq<char>)> {
    Seq::new(params.len(), |i: int| (params[i].0@, params[i].1@))
}

/// Parses `hash` with `argon2::PasswordHash::new` and hands back the text
/// of the error, if there is one.
///
/// Taken on trust: the answer depends on `hash` alone.
#[verifier::external_body]
fn parse_fault(hash: &str) -> (fault: Option<String>)
    ensures
        match fault {
            Some(text) => phc_parse_error(hash@) == Some(text@),
            None => phc_parse_error(hash@) is None,
        },
{
    match argon2::PasswordHash::new(hash) {
        Ok(_) => None,
        Err(e) => Some(e.to_string()),
    }
}

/// Parses `hash` with `argon2::PasswordHash::new` and hands back the
/// parameters that its field `params` holds, as `ParamsString::iter` gives
/// them, each as the texts of its name and of its value.
///
/// Taken on trust: the list depends on `hash` alone.
#[verifier::external_body]
fn hash_params(hash: &str) -> (params: Vec<(String, String)>)
    ensures
        params_view(params@) == phc_params(hash@),
{
    match argon2::PasswordHash::new(hash) {
        Ok(parsed) => parsed.params.iter().map(
            |(name, value)| (name.as_str().to_owned(), value.as_str().to_owned()),
        ).collect(),
        Err(_) => Vec::new(),
    }
}

/// Checks `pin` against `hash` with `PasswordVerifier::verify_password`
/// of `argon2::Argon2::default()`, for which `hash` is first parsed with
/// `argon2::PasswordHash::new`. Any error counts as a refusal.
///
/// Taken on trust: the answer depends on `pin` and `hash` alone. The
/// comparison of the two hash values takes the same time whatever they
/// hold. The call multiplies the degree of parallelism that the hash sets
/// by eight in 32 bits before it holds it against its bounds; a degree of
/// at most eight characters is below 100,000,000 and cannot overflow
/// there, which is why no other is let in. The call takes as much memory
/// and time as the hash asks for; that the machine has them is not
/// claimed.
#[verifier::external_body]
fn argon2_verify(pin: &str, hash: &str) -> (accepted: bool)
    requires
        lanes_admitted(phc_params(hash@)),
    ensures
        accepted == argon2_accepts(pin@, hash@),
{
    match argon2::PasswordHash::new(hash) {
        Ok(parsed) => argon2::PasswordVerifier::verify_password(
            &argon2::Argon2::default(),
            pin.as_bytes(),
            &parsed,
        ).is_ok(),
        Err(_) => false,
    }
}

/// The verdict on a PIN, given what the parser said of the stored hash
/// and, where it found no fault, whether the hash is one of the PIN.
pub open spec fn pin_verdict_spec(fault: Option<Seq<char>>, accepted: bool) -> Result<
    (),
    AuthErrorView,
> {
    match fault {
        Some(text) => Err(AuthErrorView::InvalidPinHash(text)),
        None => if accepted {
            Ok(())
        } else {
            Err(AuthErrorView::InvalidPin)
        },
    }
}

/// The verdict on `pin`, given what was read from the hash file: the
/// contents, or the reason why it could not be read. White space around
/// the contents is passed over. A hash whose degree of parallelism is not
/// admitted is one of no PIN.
pub open spec fn check_pin_spec(pin: Seq<char>, hash_file: Result<Seq<char>, Seq<char>>) -> Result<
    (),
    AuthErrorView,
> {
    match hash_file {
        Err(why) => Err(AuthErrorView::PinHashReadFailed(why)),
        Ok(content) => pin_verdict_spec(
            phc_parse_error(trimmed(content)),
            lanes_admitted(phc_params(trimmed(content))) && argon2_accepts(pin, trimmed(content)),
        ),
    }
}

/// Mathematical value of what was read from a file.
pub open spec fn read_view(read: Result<String, String>) -> Result<Seq<char>, Seq<char>> {
    match read {
        Ok(content) => Ok(content@),
        Err(why) => Err(why@),
    }
}

/// Mathematical value of a text that may be missing.
pub open spec fn text_view(text: Option<String>) -> Option<Seq<char>> {
    match text {
        Some(t) => Some(t@),
        None => None,
    }
}

/// Turns the findings on the stored hash into a verdict. A hash that does
/// not parse is a fault of the system, not of the one who typed the PIN,
/// and is reported as such.
pub fn pin_verdict(fault: Option<String>, accepted: bool) -> (r: Result<(), AuthError>)
    ensures
        unit_result_view(r) == pin_verdict_spec(text_view(fault), accepted),
{
    match fault {
        Some(text) => Err(AuthError::InvalidPinHash(text)),
        None => {
            if accepted {
                Ok(())
            } else {
                Err(AuthError::InvalidPin)
            }
        },
    }
}

/// Decides whether Argon2 is asked about a hash with the parameters
/// `params`.
pub fn lanes_within_reach(params: &Vec<(String, String)>) -> (admitted: bool)
    ensures
        admitted == lanes_admitted(params_view(params@)),
{
    let wanted = LANES_PARAM.to_owned();
    let ghost all = params_view(params@);
    let mut i: usize = params.len();
    proof {
        assert(all.take(i as int) =~= all);
    }
    while i > 0
        invariant
            i <= params.len(),
            wanted@ == LANES_PARAM@,
            all == params_view(params@),
            lanes_setting(all) == lanes_setting(all.take(i as int)),
        decreases i,
    {
        i = i - 1;
        proof {
            assert(all.take(i + 1).last() == all[i as int]);
            assert(all.take(i + 1).drop_last() =~= all.take(i as int));
        }
        if params[i].0 == wanted {
            return params[i].1.as_str().unicode_len() <= MAX_LANES_CHARS;
        }
    }
    true
}

/// Checks `pin` against what was read from the hash file. Argon2 is asked
/// only about a text that is a password hash and whose degree of
/// parallelism is admitted; any other is refused unseen.
pub fn check_pin(pin: &str, hash_file: Result<String, String>) -> (r: Result<(), AuthError>)
    ensures
        unit_result_view(r) == check_pin_spec(pin@, read_view(hash_file)),
{
    match hash_file {
        Err(why) => Err(AuthError::PinHashReadFailed(why)),
        Ok(content) => {
            let hash = trim(content.as_str());
            let fault = parse_fault(hash);
            let accepted = match fault {
                Some(_) => false,
                None => {
                    let params = hash_params(hash);
                    lanes_within_reach(&params) && argon2_verify(pin, hash)
                },
            };
            pin_verdict(fault, accepted)
        },
    }
}

} // verus!
