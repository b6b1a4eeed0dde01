//! The state of the homelab host.

use vstd::prelude::*;
use vstd::string::*;
use crate::api::{require_auth, require_auth_spec, Reply, ReplyBody, ReplyBodyView, ReplyView, STATUS_OK};
use crate::auth::sessions::SessionStore;
use crate::config::{Config, ConfigView};
use crate::services::network::{probe_plan, probe_plan_spec, HostStatus, ProbePlan, ProbePlanView};
use crate::text::str_view;

verus! {

/// Mathematical value of what [`get_status`] returns.
pub open spec fn status_request_view(r: Result<ProbePlan, Reply>) -> Result<
    ProbePlanView,
    ReplyView,
> {
    match r {
        Ok(plan) => Ok(plan@),
        Err(reply) => Err(reply@),
    }
}

/// What a status request leads to: the health check of the configured
/// host, if the request may pass.
pub open spec fn get_status_spec(
    auth_header: Option<Seq<char>>,
    sessions: Map<Seq<char>, u64>,
    config: ConfigView,
    now: u64,
) -> Result<ProbePlanView, ReplyView> {
    match require_auth_spec(auth_header, sessions, now) {
        Err(reply) => Err(reply),
        Ok(_) => Ok(probe_plan_spec(config.homelab_ip, config.ssh_port)),
    }
}

/// The answer to a status request, given what the probes found.
pub open spec fn status_reply_spec(config: ConfigView, status: HostStatus) -> ReplyView {
    ReplyView {
        status: STATUS_OK,
        body: ReplyBodyView::Status {
            homelab_ip: config.homelab_ip,
            reachable: status.reachable,
            initrd_ssh_open: status.initrd_ssh_open,
            system_ssh_open: status.system_ssh_open,
            initrd_ssh_port: config.ssh_port,
        },
    }
}

/// A status request at `now`. Only a request with a valid token has the
/// host probed; the caller runs the probes of the plan and answers with
/// [`status_reply`].
pub fn get_status(
    auth_header: Option<&str>,
    sessions: &SessionStore,
    config: &Config,
    now: u64,
) -> (r: Result<ProbePlan, Reply>)
    ensures
        status_request_view(r) == get_status_spec(
            str_view(auth_header),
            sessions@,
            config@,
            now,
        ),
{
    match require_auth(auth_header, sessions, now) {
        Err(reply) => Err(reply),
        Ok(_) => Ok(probe_plan(config.homelab_ip.as_str(), config.ssh_port)),
    }
}

/// The answer to a status request, given what the probes found.
pub fn status_reply(config: &Config, status: HostStatus) -> (reply: Reply)
    ensures
        reply@ == status_reply_spec(config@, status),
{
    Reply {
        status: STATUS_OK,
        body: ReplyBody::Status {
            homelab_ip: config.homelab_ip.clone(),
            reachable: status.reachable,
            initrd_ssh_open: status.initrd_ssh_open,
            system_ssh_open: status.system_ssh_open,
            initrd_ssh_port: config.ssh_port,
        },
    }
}

} // verus!
