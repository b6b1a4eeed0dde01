//! Login: the attempt limit, the PIN check and the session tokens.

pub mod credential;
pub mod limiter;
pub mod sessions;
pub mod token;

use vstd::prelude::*;
use vstd::string::*;
use crate::auth::credential::{check_pin, check_pin_spec, read_view};
use crate::auth::limiter::{admits, after_check, recorded, ClientAddr, RateLimiter, Verdict};
use crate::auth::sessions::{after_issue, validate_spec, SessionStore, TOKEN_EXPIRY_MS};
use crate::auth::token::is_token;
use crate::config::Config;
use crate::text::{prefixed, str_view, strip_prefix, strip_prefix_spec};

verus! {

/// Why a login or a request was turned down.
#[derive(Debug)]
pub enum AuthError {
    /// The PIN is not the enrolled one.
    InvalidPin,
    /// The address has used up its attempts for now.
    RateLimited,
    /// The token was never issued or is no longer valid. Which of the two
    /// is not told.
    InvalidToken,
    /// The PIN hash could not be read; the text says why.
    PinHashReadFailed(String),
    /// What was read is no password hash; the text says why.
    InvalidPinHash(String),
}

/// Mathematical value of an [`AuthError`].
pub ghost enum AuthErrorView {
    InvalidPin,
    RateLimited,
    InvalidToken,
    PinHashReadFailed(Seq<char>),
    InvalidPinHash(Seq<char>),
}

impl View for AuthError {
    type V = AuthErrorView;

    open spec fn view(&self) -> AuthErrorView {
        match self {
            AuthError::InvalidPin => AuthErrorView::InvalidPin,
            AuthError::RateLimited => AuthErrorView::RateLimited,
            AuthError::InvalidToken => AuthErrorView::InvalidToken,
            AuthError::PinHashReadFailed(m) => AuthErrorView::PinHashReadFailed(m@),
            AuthError::InvalidPinHash(m) => AuthErrorView::InvalidPinHash(m@),
        }
    }
}

/// Text shown for an error.
pub open spec fn auth_error_text(e: AuthErrorView) -> Seq<char> {
    match e {
        AuthErrorView::InvalidPin => "Invalid PIN"@,
        AuthErrorView::RateLimited => "Rate limited"@,
        AuthErrorView::InvalidToken => "Invalid or expired token"@,
        AuthErrorView::PinHashReadFailed(m) => "Failed to read PIN hash: "@ + m,
        AuthErrorView::InvalidPinHash(m) => "Invalid PIN hash format: "@ + m,
    }
}

impl AuthError {
    /// Human-readable description of the error.
    pub fn message(&self) -> (text: String)
        ensures
            text@ == auth_error_text(self@),
    {
        match self {
            AuthError::InvalidPin => "Invalid PIN".to_owned(),
            AuthError::RateLimited => "Rate limited".to_owned(),
            AuthError::InvalidToken => "Invalid or expired token".to_owned(),
            AuthError::PinHashReadFailed(m) => prefixed("Failed to read PIN hash: ", m.as_str()),
            AuthError::InvalidPinHash(m) => prefixed("Invalid PIN hash format: ", m.as_str()),
        }
    }
}

/// Mathematical value of a result that carries nothing or an [`AuthError`].
pub open spec fn unit_result_view(r: Result<(), AuthError>) -> Result<(), AuthErrorView> {
    match r {
        Ok(_) => Ok(()),
        Err(e) => Err(e@),
    }
}

/// What stands in front of the token in an `Authorization` header.
pub const BEARER_PREFIX: &'static str = "Bearer ";

/// The token that an `Authorization` header carries: what follows
/// `Bearer ` and one space, written exactly so. A header of another
/// scheme, or none, carries no token.
pub open spec fn bearer_token_spec(auth_header: Option<Seq<char>>) -> Option<Seq<char>> {
    match auth_header {
        Some(h) => strip_prefix_spec(h, BEARER_PREFIX@),
        None => None,
    }
}

/// Takes the token out of an `Authorization` header.
pub fn extract_bearer_token<'a>(auth_header: Option<&'a str>) -> (token: Option<&'a str>)
    ensures
        str_view(token) == bearer_token_spec(str_view(auth_header)),
{
    match auth_header {
        Some(h) => strip_prefix(h, BEARER_PREFIX),
        None => None,
    }
}

/// What a login yields, given the verdict on the PIN: a token where the
/// PIN was right, the reason where it was not.
pub open spec fn login_view(r: Result<String, AuthError>) -> Result<Seq<char>, AuthErrorView> {
    match r {
        Ok(token) => Ok(token@),
        Err(e) => Err(e@),
    }
}

/// Ends a login at `now`: a token is issued where the verdict on the PIN
/// is good, and the store stays as it is where it is not.
pub fn conclude_login(sessions: &mut SessionStore, verdict: Result<(), AuthError>, now: u64) -> (r:
    Result<String, AuthError>)
    requires
        old(sessions).wf(),
        now + TOKEN_EXPIRY_MS <= u64::MAX,
    ensures
        final(sessions).wf(),
        match verdict {
            Ok(_) => r is Ok && is_token(r->Ok_0@) && final(sessions)@ == after_issue(
                old(sessions)@,
                r->Ok_0@,
                now,
            ),
            Err(e) => login_view(r) == Err::<Seq<char>, AuthErrorView>(e@) && final(sessions)@
                == old(sessions)@,
        },
{
    match verdict {
        Ok(_) => Ok(sessions.issue(now)),
        Err(e) => Err(e),
    }
}

/// The state of the gateway: the settings, the sessions and the attempt
/// logs. It lives in memory only and starts empty. The three parts are
/// independent of each other; a caller that serves requests side by side
/// takes the state apart and guards each table by a lock of its own.
pub struct AppState {
    pub config: Config,
    pub sessions: SessionStore,
    pub rate_limits: RateLimiter,
}

impl AppState {
    /// Whether the two tables are in order. It holds of every state that
    /// [`AppState::new`] makes and that the methods below have worked on.
    pub open spec fn wf(&self) -> bool {
        self.sessions.wf() && self.rate_limits.wf()
    }

    /// A state with the settings `config`, without sessions and without
    /// attempts.
    pub fn new(config: Config) -> (state: AppState)
        ensures
            state.wf(),
            state.config == config,
            state.sessions@ == Map::<Seq<char>, u64>::empty(),
            state.rate_limits@ == Map::<ClientAddr, Seq<u64>>::empty(),
    {
        AppState { config, sessions: SessionStore::new(), rate_limits: RateLimiter::new() }
    }

    /// Counts an attempt of `ip` at `now` against the limit. Nothing but
    /// the log of `ip` changes.
    pub fn check_rate_limit(&mut self, ip: ClientAddr, now: u64) -> (r: Result<(), AuthError>)
        requires
            old(self).wf(),
        ensures
            final(self).wf(),
            unit_result_view(r) == if admits(recorded(old(self).rate_limits@, ip), now) {
                Ok::<(), AuthErrorView>(())
            } else {
                Err(AuthErrorView::RateLimited)
            },
            final(self).rate_limits@ == old(self).rate_limits@.insert(
                ip,
                after_check(recorded(old(self).rate_limits@, ip), now),
            ),
            final(self).sessions@ == old(self).sessions@,
            final(self).config == old(self).config,
    {
        match self.rate_limits.check(ip, now) {
            Verdict::Allowed => Ok(()),
            Verdict::Rejected => Err(AuthError::RateLimited),
        }
    }

    /// Ends a login at `now`: a token is issued where the verdict on the
    /// PIN is good, and the store stays as it is where it is not.
    pub fn conclude_login(&mut self, verdict: Result<(), AuthError>, now: u64) -> (r: Result<
        String,
        AuthError,
    >)
        requires
            old(self).wf(),
            now + TOKEN_EXPIRY_MS <= u64::MAX,
        ensures
            final(self).wf(),
            final(self).rate_limits@ == old(self).rate_limits@,
            final(self).config == old(self).config,
            match verdict {
                Ok(_) => r is Ok && is_token(r->Ok_0@) && final(self).sessions@ == after_issue(
                    old(self).sessions@,
                    r->Ok_0@,
                    now,
                ),
                Err(e) => login_view(r) == Err::<Seq<char>, AuthErrorView>(e@)
                    && final(self).sessions@ == old(self).sessions@,
            },
    {
        conclude_login(&mut self.sessions, verdict, now)
    }

    /// A login with `pin` at `now`, given what was read from the hash
    /// file. The right PIN yields a fresh token that is valid for fifteen
    /// minutes; sessions that have expired are dropped on that occasion.
    /// Anything else yields the fault and changes nothing.
    pub fn verify_pin(&mut self, pin: &str, hash_file: Result<String, String>, now: u64) -> (r:
        Result<String, AuthError>)
        requires
            old(self).wf(),
            now + TOKEN_EXPIRY_MS <= u64::MAX,
        ensures
            final(self).wf(),
            final(self).rate_limits@ == old(self).rate_limits@,
            final(self).config == old(self).config,
            match check_pin_spec(pin@, read_view(hash_file)) {
                Ok(_) => r is Ok && is_token(r->Ok_0@) && final(self).sessions@ == after_issue(
                    old(self).sessions@,
                    r->Ok_0@,
                    now,
                ),
                Err(e) => login_view(r) == Err::<Seq<char>, AuthErrorView>(e)
                    && final(self).sessions@ == old(self).sessions@,
            },
    {
        let verdict = check_pin(pin, hash_file);
        self.conclude_login(verdict, now)
    }

    /// Whether `token` names a session that is valid at `now`.
    pub fn validate_token(&self, token: &str, now: u64) -> (r: Result<(), AuthError>)
        ensures
            unit_result_view(r) == validate_spec(self.sessions@, token@, now),
    {
        self.sessions.validate(token, now)
    }
}

} // verus!
