//! Peers as the application state knows them.
use vstd::prelude::*;

use crate::clock::now_ms;
use crate::net::SocketAddress;
use crate::text::str_eq;

verus! {

/// The operating system a peer reports.
#[derive(Debug, Clone, Copy, PartialEq, Eq)]
pub enum PeerOs {
    Windows,
    MacOs,
    Linux,
    Unknown,
}

/// What `str::to_lowercase` makes of a text (Unicode lowercase mapping).
pub uninterp spec fn lowercased(s: Seq<char>) -> Seq<char>;

/// `str::to_lowercase`.
#[verifier::external_body]
fn to_lowercase(s: &str) -> (r: String)
    ensures
        r@ == lowercased(s@),
{
    s.to_lowercase()
}

/// The operating system named by a lowercased name.
pub open spec fn os_named(lower: Seq<char>) -> PeerOs {
    if lower == "windows"@ {
        PeerOs::Windows
    } else if lower == "macos"@ || lower == "darwin"@ {
        PeerOs::MacOs
    } else if lower == "linux"@ {
        PeerOs::Linux
    } else {
        PeerOs::Unknown
    }
}

impl PeerOs {
    /// The operating system a peer's name for it denotes, ignoring case:
    /// `windows`, `macos` or `darwin`, `linux`; anything else is unknown.
    pub fn from(s: &str) -> (os: PeerOs)
        ensures
            os == os_named(lowercased(s@)),
    {
        let lower = to_lowercase(s);
        let l = lower.as_str();
        if str_eq(l, "windows") {
            proof {
                reveal_strlit("windows");
            }
            PeerOs::Windows
        } else if str_eq(l, "macos") || str_eq(l, "darwin") {
            proof {
                reveal_strlit("windows");
                reveal_strlit("macos");
                reveal_strlit("darwin");
            }
            PeerOs::MacOs
        } else if str_eq(l, "linux") {
            proof {
                reveal_strlit("windows");
                reveal_strlit("macos");
                reveal_strlit("darwin");
                reveal_strlit("linux");
            }
            PeerOs::Linux
        } else {
            proof {
                reveal_strlit("windows");
                reveal_strlit("macos");
                reveal_strlit("darwin");
                reveal_strlit("linux");
            }
            PeerOs::Unknown
        }
    }
}

/// Where a peer stands in the connection and transfer life cycle.
#[derive(Debug, PartialEq, Eq)]
pub enum PeerState {
    Discovered,
    Connecting,
    TlsHandshaking,
    HelloExchange,
    PairingRequired,
    WaitingPairDecision,
    Trusted,
    ManifestNegotiation,
    Transferring,
    Completing,
    Completed,
    Failed(String),
    Canceled,
}

impl Clone for PeerState {
    fn clone(&self) -> (res: Self)
        ensures
            res == *self,
    {
        match self {
            PeerState::Discovered => PeerState::Discovered,
            PeerState::Connecting => PeerState::Connecting,
            PeerState::TlsHandshaking => PeerState::TlsHandshaking,
            PeerState::HelloExchange => PeerState::HelloExchange,
            PeerState::PairingRequired => PeerState::PairingRequired,
            PeerState::WaitingPairDecision => PeerState::WaitingPairDecision,
            PeerState::Trusted => PeerState::Trusted,
            PeerState::ManifestNegotiation => PeerState::ManifestNegotiation,
            PeerState::Transferring => PeerState::Transferring,
            PeerState::Completing => PeerState::Completing,
            PeerState::Completed => PeerState::Completed,
            PeerState::Failed(e) => PeerState::Failed(e.clone()),
            PeerState::Canceled => PeerState::Canceled,
        }
    }
}

/// A peer: who it is, where it is, its certificate fingerprint, its state and when
/// it was last seen (milliseconds since the Unix epoch).
#[derive(Debug)]
pub struct Peer {
    pub id: u128,
    pub name: String,
    pub os: PeerOs,
    pub addr: SocketAddress,
    pub fingerprint: String,
    pub state: PeerState,
    pub last_seen_ms: u64,
}

impl Clone for Peer {
    fn clone(&self) -> (res: Self)
        ensures
            res == *self,
    {
        Peer {
            id: self.id,
            name: self.name.clone(),
            os: self.os,
            addr: self.addr,
            fingerprint: self.fingerprint.clone(),
            state: self.state.clone(),
            last_seen_ms: self.last_seen_ms,
        }
    }
}

/// Whether something last seen at `last_seen` has, at `now`, been unseen for longer
/// than `ttl` (a clock that went back counts as no time passed).
pub open spec fn expired(now: u64, last_seen: u64, ttl: u64) -> bool {
    if now >= last_seen {
        now - last_seen > ttl
    } else {
        false
    }
}

impl Peer {
    /// A newly discovered peer, seen now.
    pub fn new(id: u128, name: String, os: PeerOs, addr: SocketAddress, fingerprint: String) -> (p:
        Peer)
        ensures
            p.id == id,
            p.name == name,
            p.os == os,
            p.addr == addr,
            p.fingerprint == fingerprint,
            p.state == PeerState::Discovered,
    {
        Peer { id, name, os, addr, fingerprint, state: PeerState::Discovered, last_seen_ms: now_ms() }
    }

    /// Marks the peer as seen at `now_ms`.
    pub fn touch_at(&mut self, now_ms: u64)
        ensures
            *final(self) == (Peer { last_seen_ms: now_ms, ..*old(self) }),
    {
        self.last_seen_ms = now_ms;
    }

    /// Marks the peer as seen now.
    pub fn touch(&mut self)
        ensures
            *final(self) == (Peer { last_seen_ms: final(self).last_seen_ms, ..*old(self) }),
    {
        self.touch_at(now_ms());
    }

    /// Whether, at `now_ms`, the peer has been unseen for longer than `ttl_ms`.
    pub fn is_expired_at(&self, now_ms: u64, ttl_ms: u64) -> (r: bool)
        ensures
            r == expired(now_ms, self.last_seen_ms, ttl_ms),
    {
        now_ms.saturating_sub(self.last_seen_ms) > ttl_ms
    }

    /// Whether the peer has been unseen for longer than `ttl_ms` by now: the answer
    /// is `is_expired_at` at the clock's reading, which nothing here fixes.
    pub fn is_expired(&self, ttl_ms: u64) -> (r: bool)
        ensures
            exists|now: u64| r == expired(now, self.last_seen_ms, ttl_ms),
    {
        self.is_expired_at(now_ms(), ttl_ms)
    }
}

} // verus!
