//! The gateway's answers to requests.
//!
//! Each function here takes what the transport has read from a request as
//! plain values and hands back the answer, or the work that has to be done
//! before there can be one. How requests arrive and how answers are
//! encoded is left to the caller.
//!
//! Each function takes the part of the gateway's state that it works on
//! and no more: the sessions, the attempt logs, the settings. A caller
//! that serves requests side by side can so guard each table by a lock of
//! its own, and hold none while it reads a file, computes a hash or talks
//! to the network.

pub mod assets;
pub mod auth;
pub mod status;
pub mod unlock;
pub mod wol;

use vstd::prelude::*;
use vstd::string::*;
use crate::auth::sessions::{is_valid, SessionStore};
use crate::auth::{bearer_token_spec, extract_bearer_token};
use crate::text::str_view;

verus! {

/// The request was carried out.
pub const STATUS_OK: u16 = 200;

/// The request is malformed.
pub const STATUS_BAD_REQUEST: u16 = 400;

/// The request lacks a valid PIN or token.
pub const STATUS_UNAUTHORIZED: u16 = 401;

/// The caller has to wait.
pub const STATUS_TOO_MANY_REQUESTS: u16 = 429;

/// The gateway could not do its part.
pub const STATUS_SERVER_ERROR: u16 = 500;

/// What an answer carries, field by field.
#[derive(Debug)]
pub enum ReplyBody {
    /// `token`: the session token.
    Token { token: String },
    /// `error`: what went wrong.
    Error { error: String },
    /// `success`, which is true, and `message`.
    Success { message: String },
    /// The state of the homelab host.
    Status {
        homelab_ip: String,
        reachable: bool,
        initrd_ssh_open: bool,
        system_ssh_open: bool,
        initrd_ssh_port: u16,
    },
}

/// Mathematical value of a [`ReplyBody`].
pub ghost enum ReplyBodyView {
    Token { token: Seq<char> },
    Error { error: Seq<char> },
    Success { message: Seq<char> },
    Status {
        homelab_ip: Seq<char>,
        reachable: bool,
        initrd_ssh_open: bool,
        system_ssh_open: bool,
        initrd_ssh_port: u16,
    },
}

impl View for ReplyBody {
    type V = ReplyBodyView;

    open spec fn view(&self) -> ReplyBodyView {
        match self {
            ReplyBody::Token { token } => ReplyBodyView::Token { token: token@ },
            ReplyBody::Error { error } => ReplyBodyView::Error { error: error@ },
            ReplyBody::Success { message } => ReplyBodyView::Success { message: message@ },
            ReplyBody::Status {
                homelab_ip,
                reachable,
                initrd_ssh_open,
                system_ssh_open,
                initrd_ssh_port,
            } => ReplyBodyView::Status {
                homelab_ip: homelab_ip@,
                reachable: *reachable,
                initrd_ssh_open: *initrd_ssh_open,
                system_ssh_open: *system_ssh_open,
                initrd_ssh_port: *initrd_ssh_port,
            },
        }
    }
}

/// An answer: a status code and what it carries.
#[derive(Debug)]
pub struct Reply {
    pub status: u16,
    pub body: ReplyBody,
}

/// Mathematical value of a [`Reply`].
pub ghost struct ReplyView {
    pub status: u16,
    pub body: ReplyBodyView,
}

impl View for Reply {
    type V = ReplyView;

    open spec fn view(&self) -> ReplyView {
        ReplyView { status: self.status, body: self.body@ }
    }
}

/// The answer that reports `error` under `status`.
pub open spec fn error_reply(status: u16, error: Seq<char>) -> ReplyView {
    ReplyView { status, body: ReplyBodyView::Error { error } }
}

/// The answer that reports success with `message`.
pub open spec fn success_reply(message: Seq<char>) -> ReplyView {
    ReplyView { status: STATUS_OK, body: ReplyBodyView::Success { message } }
}

impl Reply {
    /// An answer that reports `error` under `status`.
    pub fn error(status: u16, error: String) -> (reply: Reply)
        ensures
            reply@ == error_reply(status, error@),
    {
        Reply { status, body: ReplyBody::Error { error } }
    }

    /// An answer that reports success with `message`.
    pub fn success(message: &str) -> (reply: Reply)
        ensures
            reply@ == success_reply(message@),
    {
        Reply { status: STATUS_OK, body: ReplyBody::Success { message: message.to_owned() } }
    }
}

/// Mathematical value of a result that carries nothing or an answer.
pub open spec fn admission_view(r: Result<(), Reply>) -> Result<(), ReplyView> {
    match r {
        Ok(_) => Ok(()),
        Err(reply) => Err(reply@),
    }
}

/// Whether a request with the header `auth_header` may pass at `now`, and
/// the answer it gets where it may not.
pub open spec fn require_auth_spec(
    auth_header: Option<Seq<char>>,
    sessions: Map<Seq<char>, u64>,
    now: u64,
) -> Result<(), ReplyView> {
    match bearer_token_spec(auth_header) {
        None => Err(error_reply(STATUS_UNAUTHORIZED, "Missing or invalid Authorization header"@)),
        Some(token) => if is_valid(sessions, token, now) {
            Ok(())
        } else {
            Err(error_reply(STATUS_UNAUTHORIZED, "Invalid or expired token"@))
        },
    }
}

/// Lets a request pass if its `Authorization` header carries a token that
/// is valid at `now`. A request without such a header and one with a bad
/// token are both turned away as unauthorized. Of the gateway's state only
/// the sessions are looked at.
pub fn require_auth(auth_header: Option<&str>, sessions: &SessionStore, now: u64) -> (r: Result<
    (),
    Reply,
>)
    ensures
        admission_view(r) == require_auth_spec(str_view(auth_header), sessions@, now),
{
    let token = match extract_bearer_token(auth_header) {
        Some(token) => token,
        None => {
            return Err(
                Reply::error(
                    STATUS_UNAUTHORIZED,
                    "Missing or invalid Authorization header".to_owned(),
                ),
            );
        },
    };
    match sessions.validate(token, now) {
        Ok(_) => Ok(()),
        Err(_) => Err(Reply::error(STATUS_UNAUTHORIZED, "Invalid or expired token".to_owned())),
    }
}

} // verus!
