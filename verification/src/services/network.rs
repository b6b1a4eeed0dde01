//! The coarse health check of the homelab host: what is probed, and what
//! the probes found.

use vstd::prelude::*;
use vstd::string::*;

verus! {

/// Port of the shell of the running system.
pub const SYSTEM_SSH_PORT: u16 = 22;

/// Echo requests sent.
pub const PING_COUNT: u32 = 1;

/// Time to wait for the echo reply, in seconds.
pub const PING_WAIT_SECS: u32 = 2;

/// Time to wait for a TCP connection, in seconds.
pub const CONNECT_TIMEOUT_SECS: u64 = 3;

/// What the probes found.
#[derive(Debug, Clone, Copy, PartialEq, Eq, Structural)]
pub struct HostStatus {
    /// The host answers an echo request.
    pub reachable: bool,
    /// The boot-time shell takes connections: the disk is still locked.
    pub initrd_ssh_open: bool,
    /// The shell of the running system takes connections.
    pub system_ssh_open: bool,
}

impl HostStatus {
    /// The status that the three probes of a plan found: the answer to
    /// the echo request, then that of the boot-time shell's port, then
    /// that of the running system's.
    pub fn from_probes(reachable: bool, initrd_ssh_open: bool, system_ssh_open: bool) -> (status:
        HostStatus)
        ensures
            status == (HostStatus { reachable, initrd_ssh_open, system_ssh_open }),
    {
        HostStatus { reachable, initrd_ssh_open, system_ssh_open }
    }
}

/// The probes that make up one health check: one echo request to `host`
/// and one TCP connection to each of the two ports.
#[derive(Debug)]
pub struct ProbePlan {
    pub host: String,
    pub ping_count: u32,
    pub ping_wait_secs: u32,
    pub initrd_ssh_port: u16,
    pub system_ssh_port: u16,
    pub connect_timeout_secs: u64,
}

/// Mathematical value of a [`ProbePlan`].
pub ghost struct ProbePlanView {
    pub host: Seq<char>,
    pub ping_count: u32,
    pub ping_wait_secs: u32,
    pub initrd_ssh_port: u16,
    pub system_ssh_port: u16,
    pub connect_timeout_secs: u64,
}

impl View for ProbePlan {
    type V = ProbePlanView;

    open spec fn view(&self) -> ProbePlanView {
        ProbePlanView {
            host: self.host@,
            ping_count: self.ping_count,
            ping_wait_secs: self.ping_wait_secs,
            initrd_ssh_port: self.initrd_ssh_port,
            system_ssh_port: self.system_ssh_port,
            connect_timeout_secs: self.connect_timeout_secs,
        }
    }
}

/// The health check of the host at `ip` whose boot-time shell listens on
/// `initrd_ssh_port`.
pub open spec fn probe_plan_spec(ip: Seq<char>, initrd_ssh_port: u16) -> ProbePlanView {
    ProbePlanView {
        host: ip,
        ping_count: PING_COUNT,
        ping_wait_secs: PING_WAIT_SECS,
        initrd_ssh_port,
        system_ssh_port: SYSTEM_SSH_PORT,
        connect_timeout_secs: CONNECT_TIMEOUT_SECS,
    }
}

/// Lays out the health check of the host at `ip`.
pub fn probe_plan(ip: &str, initrd_ssh_port: u16) -> (plan: ProbePlan)
    ensures
        plan@ == probe_plan_spec(ip@, initrd_ssh_port),
{
    ProbePlan {
        host: ip.to_owned(),
        ping_count: PING_COUNT,
        ping_wait_secs: PING_WAIT_SECS,
        initrd_ssh_port,
        system_ssh_port: SYSTEM_SSH_PORT,
        connect_timeout_secs: CONNECT_TIMEOUT_SECS,
    }
}

} // verus!
