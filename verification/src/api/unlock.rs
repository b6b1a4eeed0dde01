//! The privileged action: delivering the disk passphrase.

use vstd::prelude::*;
use vstd::string::*;
use crate::api::{
    error_reply, require_auth, require_auth_spec, success_reply, Reply, ReplyView,
    STATUS_BAD_REQUEST, STATUS_SERVER_ERROR,
};
use crate::auth::sessions::SessionStore;
use crate::config::{Config, ConfigView};
use crate::services::ssh::{
    initial_session, outcome_view, SshError, SshErrorView, UnlockSession, UnlockSessionView,
};
use crate::text::str_view;

verus! {

/// Greatest length of a passphrase, in bytes of UTF-8.
pub const MAX_PASSPHRASE_LEN: usize = 1024;

/// What an unlock request carries. It holds the passphrase, so it cannot
/// be printed.
pub struct UnlockRequest {
    pub passphrase: String,
}

/// Why a passphrase is not passed on.
#[derive(Debug, Clone, Copy, PartialEq, Eq, Structural)]
pub enum PassphraseValidationError {
    Empty,
    TooLong,
    ContainsControlChars,
}

/// Control character: `U+0000` to `U+001F` and `U+007F` to `U+009F`.
pub open spec fn is_control(c: char) -> bool {
    c as u32 <= 0x1f || (0x7f <= c as u32 && c as u32 <= 0x9f)
}

/// Whether a control character stands in `s`.
pub open spec fn has_control(s: Seq<char>) -> bool {
    exists|i: int| 0 <= i < s.len() && is_control(#[trigger] s[i])
}

/// What [`validate_passphrase`] returns for `s`. The checks come in this
/// order: empty, too long, control characters.
pub open spec fn validate_passphrase_spec(s: Seq<char>) -> Result<(), PassphraseValidationError> {
    if s.len() == 0 {
        Err(PassphraseValidationError::Empty)
    } else if vstd::utf8::encode_utf8(s).len() > MAX_PASSPHRASE_LEN {
        Err(PassphraseValidationError::TooLong)
    } else if has_control(s) {
        Err(PassphraseValidationError::ContainsControlChars)
    } else {
        Ok(())
    }
}

/// Decides whether `c` is a control character.
pub fn char_is_control(c: char) -> (b: bool)
    ensures
        b == is_control(c),
{
    let u: u32 = c as u32;
    u <= 0x1f || (0x7f <= u && u <= 0x9f)
}

/// Accepts a passphrase that can be typed at a terminal prompt as one
/// line: not empty, no longer than 1024 bytes, free of control characters.
/// Everything else passes, the characters that a shell would act on too:
/// the prompt reads the line and runs nothing.
pub fn validate_passphrase(passphrase: &str) -> (r: Result<(), PassphraseValidationError>)
    ensures
        r == validate_passphrase_spec(passphrase@),
{
    if passphrase.is_empty() {
        return Err(PassphraseValidationError::Empty);
    }
    if passphrase.as_bytes().len() > MAX_PASSPHRASE_LEN {
        return Err(PassphraseValidationError::TooLong);
    }
    for c in it: passphrase.chars()
        invariant
            it.seq() == passphrase@,
            passphrase@.len() > 0,
            vstd::utf8::encode_utf8(passphrase@).len() <= MAX_PASSPHRASE_LEN,
            forall|i: int| 0 <= i < it.index() ==> !is_control(#[trigger] passphrase@[i]),
    {
        if char_is_control(c) {
            proof {
                assert(is_control(passphrase@[it.index()]));
            }
            return Err(PassphraseValidationError::ContainsControlChars);
        }
    }
    Ok(())
}

/// What the caller is told of a passphrase that is not passed on.
pub open spec fn passphrase_error_text(e: PassphraseValidationError) -> Seq<char> {
    match e {
        PassphraseValidationError::Empty => "Passphrase cannot be empty"@,
        PassphraseValidationError::TooLong => "Passphrase too long"@,
        PassphraseValidationError::ContainsControlChars => "Passphrase contains invalid characters"@,
    }
}

/// What an unlock request leads to: a delivery of the passphrase to the
/// configured host, if the request may pass and the passphrase is one
/// that can be typed at the prompt.
pub open spec fn unlock_spec(
    auth_header: Option<Seq<char>>,
    sessions: Map<Seq<char>, u64>,
    config: ConfigView,
    passphrase: Seq<char>,
    now: u64,
) -> Result<UnlockSessionView, ReplyView> {
    match require_auth_spec(auth_header, sessions, now) {
        Err(reply) => Err(reply),
        Ok(_) => match validate_passphrase_spec(passphrase) {
            Err(e) => Err(error_reply(STATUS_BAD_REQUEST, passphrase_error_text(e))),
            Ok(_) => Ok(
                initial_session(config.homelab_ip, config.ssh_port, config.ssh_key_path, passphrase),
            ),
        },
    }
}

/// Mathematical value of what [`unlock`] returns.
pub open spec fn unlock_request_view(r: Result<UnlockSession, Reply>) -> Result<
    UnlockSessionView,
    ReplyView,
> {
    match r {
        Ok(session) => Ok(session@),
        Err(reply) => Err(reply@),
    }
}

/// The answer to an unlock request, given how the delivery ended. Every
/// failure is answered alike: what went wrong, and where, is not told.
pub open spec fn unlock_reply_spec(outcome: Result<(), SshErrorView>) -> ReplyView {
    match outcome {
        Ok(_) => success_reply("Passphrase sent successfully"@),
        Err(_) => error_reply(STATUS_SERVER_ERROR, "Failed to unlock"@),
    }
}

/// The answer to a failed delivery tells nothing of the failure: any two
/// failures are answered alike.
pub proof fn law_unlock_failures_answered_alike(e1: SshErrorView, e2: SshErrorView)
    ensures
        unlock_reply_spec(Err(e1)) == unlock_reply_spec(Err(e2)),
        unlock_reply_spec(Err(e1)).status == STATUS_SERVER_ERROR,
{
}

/// An unlock request at `now`. The token comes first, then the
/// passphrase; only a request that passes both has a delivery begun. The
/// caller carries the delivery out and answers with [`unlock_reply`].
pub fn unlock(
    auth_header: Option<&str>,
    sessions: &SessionStore,
    config: &Config,
    body: &UnlockRequest,
    now: u64,
) -> (r: Result<UnlockSession, Reply>)
    ensures
        unlock_request_view(r) == unlock_spec(
            str_view(auth_header),
            sessions@,
            config@,
            body.passphrase@,
            now,
        ),
{
    match require_auth(auth_header, sessions, now) {
        Err(reply) => {
            return Err(reply);
        },
        Ok(_) => {},
    }
    match validate_passphrase(body.passphrase.as_str()) {
        Err(e) => {
            let text = match e {
                PassphraseValidationError::Empty => "Passphrase cannot be empty",
                PassphraseValidationError::TooLong => "Passphrase too long",
                PassphraseValidationError::ContainsControlChars => {
                    "Passphrase contains invalid characters"
                },
            };
            Err(Reply::error(STATUS_BAD_REQUEST, text.to_owned()))
        },
        Ok(_) => Ok(
            UnlockSession::new(
                config.homelab_ip.as_str(),
                config.ssh_port,
                config.ssh_key_path.as_str(),
                body.passphrase.as_str(),
            ),
        ),
    }
}

/// The answer to an unlock request, given how the delivery ended. Success
/// says that the passphrase was written, not that the disk is open. A
/// failure is a fault of the gateway and is not described: neither the
/// key's path nor the words of the transport reach the caller.
pub fn unlock_reply(outcome: Result<(), SshError>) -> (reply: Reply)
    ensures
        reply@ == unlock_reply_spec(outcome_view(outcome)),
{
    match outcome {
        Ok(_) => Reply::success("Passphrase sent successfully"),
        Err(_) => Reply::error(STATUS_SERVER_ERROR, "Failed to unlock".to_owned()),
    }
}

} // verus!
