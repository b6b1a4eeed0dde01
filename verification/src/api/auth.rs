//! Login with the PIN.

use vstd::prelude::*;
use vstd::string::*;
use crate::api::{
    admission_view, error_reply, Reply, ReplyBody, ReplyBodyView, ReplyView, STATUS_OK,
    STATUS_SERVER_ERROR, STATUS_TOO_MANY_REQUESTS, STATUS_UNAUTHORIZED,
};
use crate::auth::credential::{check_pin, check_pin_spec, read_view};
use crate::auth::limiter::{admits, after_check, recorded, ClientAddr, RateLimiter, Verdict};
use crate::auth::sessions::{after_issue, SessionStore, TOKEN_EXPIRY_MS};
use crate::auth::token::is_token;
use crate::auth::{conclude_login, login_view, AppState, AuthError, AuthErrorView};

verus! {

/// What a login request carries. It holds the PIN, so it cannot be
/// printed.
pub struct AuthRequest {
    pub pin: String,
}

/// The address that an attempt is counted under: that of the peer, or the
/// loopback address where the transport knows none.
pub open spec fn source_of(peer: Option<ClientAddr>) -> ClientAddr {
    match peer {
        Some(addr) => addr,
        None => ClientAddr::V4(0x7f00_0001),
    }
}

/// The answer to a login, given how it ended.
pub open spec fn login_reply_spec(outcome: Result<Seq<char>, AuthErrorView>) -> ReplyView {
    match outcome {
        Ok(token) => ReplyView { status: STATUS_OK, body: ReplyBodyView::Token { token } },
        Err(AuthErrorView::InvalidPin) => error_reply(STATUS_UNAUTHORIZED, "Invalid PIN"@),
        Err(_) => error_reply(STATUS_SERVER_ERROR, "Authentication failed"@),
    }
}

/// The answer to an attempt that the limiter turned away.
pub open spec fn rate_limited_reply() -> ReplyView {
    error_reply(STATUS_TOO_MANY_REQUESTS, "Too many authentication attempts. Please wait."@)
}

/// The first step of a login: the attempt is counted against the limit of
/// its source, before the PIN is looked at. Of the gateway's state only
/// the attempt logs are touched.
pub fn admit_login(limiter: &mut RateLimiter, peer: Option<ClientAddr>, now: u64) -> (r: Result<
    (),
    Reply,
>)
    requires
        old(limiter).wf(),
    ensures
        final(limiter).wf(),
        final(limiter)@ == old(limiter)@.insert(
            source_of(peer),
            after_check(recorded(old(limiter)@, source_of(peer)), now),
        ),
        admission_view(r) == if admits(recorded(old(limiter)@, source_of(peer)), now) {
            Ok::<(), ReplyView>(())
        } else {
            Err(rate_limited_reply())
        },
{
    let ip = match peer {
        Some(addr) => addr,
        None => ClientAddr::localhost(),
    };
    match limiter.check(ip, now) {
        Verdict::Allowed => Ok(()),
        Verdict::Rejected => Err(
            Reply::error(
                STATUS_TOO_MANY_REQUESTS,
                "Too many authentication attempts. Please wait.".to_owned(),
            ),
        ),
    }
}

/// The answer to a login that ended as `outcome` says. A wrong PIN is the
/// caller's fault and is named; a fault of the hash file is the gateway's
/// and is not described.
pub fn login_reply(outcome: Result<String, AuthError>) -> (reply: Reply)
    ensures
        reply@ == login_reply_spec(login_view(outcome)),
{
    match outcome {
        Ok(token) => Reply { status: STATUS_OK, body: ReplyBody::Token { token } },
        Err(AuthError::InvalidPin) => Reply::error(STATUS_UNAUTHORIZED, "Invalid PIN".to_owned()),
        Err(_) => Reply::error(STATUS_SERVER_ERROR, "Authentication failed".to_owned()),
    }
}

/// The last step of a login at `now`, given the verdict on the PIN: a
/// good one is answered with a fresh token, any other with the answer to
/// its fault. Of the gateway's state only the sessions are touched, and
/// only where a token is issued.
pub fn finish_login(sessions: &mut SessionStore, verdict: Result<(), AuthError>, now: u64) -> (reply:
    Reply)
    requires
        old(sessions).wf(),
        now + TOKEN_EXPIRY_MS <= u64::MAX,
    ensures
        final(sessions).wf(),
        match verdict {
            Ok(_) => reply.status == STATUS_OK && reply.body is Token && is_token(
                reply.body->token@,
            ) && final(sessions)@ == after_issue(old(sessions)@, reply.body->token@, now),
            Err(e) => reply@ == login_reply_spec(Err(e@)) && final(sessions)@ == old(sessions)@,
        },
{
    let outcome = conclude_login(sessions, verdict, now);
    login_reply(outcome)
}

/// A login at `now` from `peer` with the PIN of `body`, given what was
/// read from the hash file. The limiter comes first: an attempt that it
/// turns away is not checked. Then the PIN: the right one is answered with
/// a fresh token.
///
/// The three steps are [`admit_login`], the check of the PIN and
/// [`finish_login`]. A caller that keeps the tables behind locks takes
/// them one by one, and reads the hash file and checks the PIN between
/// the first and the last with no lock held.
pub fn authenticate(
    state: &mut AppState,
    peer: Option<ClientAddr>,
    body: &AuthRequest,
    hash_file: Result<String, String>,
    now: u64,
) -> (reply: Reply)
    requires
        old(state).wf(),
        now + TOKEN_EXPIRY_MS <= u64::MAX,
    ensures
        final(state).wf(),
        final(state).config == old(state).config,
        final(state).rate_limits@ == old(state).rate_limits@.insert(
            source_of(peer),
            after_check(recorded(old(state).rate_limits@, source_of(peer)), now),
        ),
        if !admits(recorded(old(state).rate_limits@, source_of(peer)), now) {
            reply@ == rate_limited_reply() && final(state).sessions@ == old(state).sessions@
        } else {
            match check_pin_spec(body.pin@, read_view(hash_file)) {
                Ok(_) => reply.status == STATUS_OK && reply.body is Token && is_token(
                    reply.body->token@,
                ) && final(state).sessions@ == after_issue(
                    old(state).sessions@,
                    reply.body->token@,
                    now,
                ),
                Err(e) => reply@ == login_reply_spec(Err(e)) && final(state).sessions@ == old(
                    state,
                ).sessions@,
            }
        },
{
    match admit_login(&mut state.rate_limits, peer, now) {
        Err(reply) => reply,
        Ok(_) => {
            let verdict = check_pin(body.pin.as_str(), hash_file);
            finish_login(&mut state.sessions, verdict, now)
        },
    }
}

} // verus!
