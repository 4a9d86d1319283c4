//! What the platform is, and whether its firewall lets transfers in.
use vstd::prelude::*;

verus! {

/// Whether the firewall lets inbound transfers through.
#[derive(Debug, Clone, Copy, PartialEq, Eq)]
pub enum FirewallStatus {
    Open,
    BlockingInbound,
    Unknown,
}

impl FirewallStatus {
    /// The verdict of a probe that tries to listen on the transfer port on the
    /// loopback interface: reachable when it could, blocked when it could not, and
    /// unknown where no probe is made (`None`).
    pub fn from_probe(bound: Option<bool>) -> (s: FirewallStatus)
        ensures
            s == match bound {
                Some(true) => FirewallStatus::Open,
                Some(false) => FirewallStatus::BlockingInbound,
                None => FirewallStatus::Unknown,
            },
    {
        match bound {
            Some(true) => FirewallStatus::Open,
            Some(false) => FirewallStatus::BlockingInbound,
            None => FirewallStatus::Unknown,
        }
    }
}

/// The operating system and the host name of this machine.
#[derive(Debug, Clone, PartialEq, Eq)]
pub struct PlatformInfo {
    pub os: String,
    pub hostname: String,
}

impl PlatformInfo {
    /// The platform `os`, on a machine whose host name reads `hostname`, or
    /// `unknown` when it cannot be read.
    pub fn new(os: String, hostname: Option<String>) -> (p: PlatformInfo)
        ensures
            p.os == os,
            p.hostname@ == match hostname {
                Some(h) => h@,
                None => "unknown"@,
            },
    {
        let hostname = match hostname {
            Some(h) => h,
            None => String::from_str("unknown"),
        };
        PlatformInfo { os, hostname }
    }
}

} // verus!
