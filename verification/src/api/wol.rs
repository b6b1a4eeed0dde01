//! Waking the homelab host.

use vstd::prelude::*;
use vstd::string::*;
use crate::api::{
    error_reply, require_auth, require_auth_spec, success_reply, Reply, ReplyView,
    STATUS_SERVER_ERROR,
};
use crate::auth::sessions::SessionStore;
use crate::config::{Config, ConfigView};
use crate::services::wol::{
    send_magic_packet, send_magic_packet_spec, WolDatagram, WolDatagramView, WolError,
    WolErrorView,
};
use crate::text::str_view;

verus! {

/// The answer to a wake request whose packet did not go out. It is the
/// same whatever went wrong: neither the configured hardware address nor
/// the words of the network reach the caller.
pub open spec fn wol_failure_reply() -> ReplyView {
    error_reply(STATUS_SERVER_ERROR, "Failed to send WOL packet"@)
}

/// What a wake request leads to: the datagram to send, if the request may
/// pass and the configured hardware address is one.
pub open spec fn send_wol_spec(
    auth_header: Option<Seq<char>>,
    sessions: Map<Seq<char>, u64>,
    config: ConfigView,
    now: u64,
) -> Result<WolDatagramView, ReplyView> {
    match require_auth_spec(auth_header, sessions, now) {
        Err(reply) => Err(reply),
        Ok(_) => match send_magic_packet_spec(config.homelab_mac, config.homelab_broadcast) {
            Ok(datagram) => Ok(datagram),
            Err(_) => Err(wol_failure_reply()),
        },
    }
}

/// Mathematical value of what [`send_wol`] returns.
pub open spec fn wol_request_view(r: Result<WolDatagram, Reply>) -> Result<
    WolDatagramView,
    ReplyView,
> {
    match r {
        Ok(datagram) => Ok(datagram@),
        Err(reply) => Err(reply@),
    }
}

/// The answer to a wake request, given how the sending went.
pub open spec fn wol_reply_spec(sent: Result<(), WolErrorView>) -> ReplyView {
    match sent {
        Ok(_) => success_reply("Wake-on-LAN packet sent"@),
        Err(_) => wol_failure_reply(),
    }
}

/// Mathematical value of how the sending went.
pub open spec fn sent_view(sent: Result<(), WolError>) -> Result<(), WolErrorView> {
    match sent {
        Ok(_) => Ok(()),
        Err(e) => Err(e@),
    }
}

fn failure_reply() -> (reply: Reply)
    ensures
        reply@ == wol_failure_reply(),
{
    Reply::error(STATUS_SERVER_ERROR, "Failed to send WOL packet".to_owned())
}

/// A wake request at `now`. Only a request with a valid token has a
/// packet made; the caller sends the datagram and answers with
/// [`wol_reply`].
pub fn send_wol(
    auth_header: Option<&str>,
    sessions: &SessionStore,
    config: &Config,
    now: u64,
) -> (r: Result<WolDatagram, Reply>)
    ensures
        wol_request_view(r) == send_wol_spec(
            str_view(auth_header),
            sessions@,
            config@,
            now,
        ),
{
    match require_auth(auth_header, sessions, now) {
        Err(reply) => Err(reply),
        Ok(_) => match send_magic_packet(
            config.homelab_mac.as_str(),
            config.homelab_broadcast.as_str(),
        ) {
            Ok(datagram) => Ok(datagram),
            Err(_) => Err(failure_reply()),
        },
    }
}

/// The answer to a wake request, given how the sending went.
pub fn wol_reply(sent: Result<(), WolError>) -> (reply: Reply)
    ensures
        reply@ == wol_reply_spec(sent_view(sent)),
{
    match sent {
        Ok(_) => Reply::success("Wake-on-LAN packet sent"),
        Err(_) => failure_reply(),
    }
}

} // verus!
