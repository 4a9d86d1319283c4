//! What the user interface is shown of peers, of this device and of pairing requests.
use vstd::prelude::*;

use crate::discovery::manager::{find_peer, DiscoveredPeer};
use crate::ids::{uuid_hyphenated, uuid_text};
use crate::transfer::engine::TransferDirection;

verus! {

/// A peer as the user interface lists it.
#[derive(Debug, Clone, PartialEq, Eq)]
pub struct PeerDto {
    pub id: String,
    pub name: String,
    pub os: String,
    pub addr: String,
    pub fingerprint: String,
    pub state: String,
}

/// This device as the user interface shows it.
#[derive(Debug, Clone, PartialEq, Eq)]
pub struct AppInfoDto {
    pub device_id: String,
    pub device_name: String,
    pub fingerprint: String,
    pub receive_dir: String,
}

/// A pairing request as the user interface shows it.
#[derive(Debug, Clone, PartialEq, Eq)]
pub struct PairingRequestDto {
    pub peer_id: String,
    pub peer_name: String,
    pub peer_fingerprint: String,
    pub pin: String,
}

/// The state shown of a discovered peer: paired when trusted, discovered otherwise.
pub open spec fn state_label(trusted: bool) -> Seq<char> {
    if trusted {
        "Paired"@
    } else {
        "Discovered"@
    }
}

/// The label of a transfer direction.
pub open spec fn direction_text(d: TransferDirection) -> Seq<char> {
    match d {
        TransferDirection::Send => "Send"@,
        TransferDirection::Receive => "Receive"@,
    }
}

/// The label of a transfer direction.
pub fn direction_label(d: TransferDirection) -> (s: String)
    ensures
        s@ == direction_text(d),
{
    match d {
        TransferDirection::Send => String::from_str("Send"),
        TransferDirection::Receive => String::from_str("Receive"),
    }
}

impl PeerDto {
    /// A discovered peer as listed: its id's text, its name, an unknown OS, its
    /// address's text `addr_text`, no fingerprint, and paired or discovered as
    /// `trusted` says.
    pub fn from_discovered(p: &DiscoveredPeer, addr_text: String, trusted: bool) -> (d: PeerDto)
        ensures
            d.id@ == uuid_hyphenated(p.device_id),
            d.name@ == p.device_name@,
            d.os@ == "unknown"@,
            d.addr == addr_text,
            d.fingerprint@ == Seq::<char>::empty(),
            d.state@ == state_label(trusted),
    {
        PeerDto {
            id: uuid_text(p.device_id),
            name: p.device_name.clone(),
            os: String::from_str("unknown"),
            addr: addr_text,
            fingerprint: String::new(),
            state: if trusted {
                String::from_str("Paired")
            } else {
                String::from_str("Discovered")
            },
        }
    }
}

impl AppInfoDto {
    /// This device as shown: its id's text, its name, its certificate fingerprint
    /// and the directory it receives into.
    pub fn new(device_id: u128, device_name: String, fingerprint: String, receive_dir: String) -> (d:
        AppInfoDto)
        ensures
            d.device_id@ == uuid_hyphenated(device_id),
            d.device_name == device_name,
            d.fingerprint == fingerprint,
            d.receive_dir == receive_dir,
    {
        AppInfoDto { device_id: uuid_text(device_id), device_name, fingerprint, receive_dir }
    }
}

/// The name shown for peer `peer_id`: the name of the first discovered peer with
/// that id, or else the id's text.
pub fn peer_name_for(peers: &Vec<DiscoveredPeer>, peer_id: u128) -> (name: String)
    ensures
        (exists|i: int|
            0 <= i < peers@.len() && (#[trigger] peers@[i]).device_id == peer_id && name@
                == peers@[i].device_name@ && forall|j: int|
                0 <= j < i ==> (#[trigger] peers@[j]).device_id != peer_id) || ((forall|j: int|
            0 <= j < peers@.len() ==> (#[trigger] peers@[j]).device_id != peer_id) && name@
            == uuid_hyphenated(peer_id)),
{
    match find_peer(peers, peer_id) {
        Some(p) => p.device_name,
        None => uuid_text(peer_id),
    }
}

impl PairingRequestDto {
    /// A peer's pairing request as shown: the peer's id's text, the name shown for
    /// it among the discovered `peers`, its fingerprint and the PIN.
    pub fn for_request(peers: &Vec<DiscoveredPeer>, peer_id: u128, peer_fingerprint: String, pin: String) -> (d:
        PairingRequestDto)
        ensures
            d.peer_id@ == uuid_hyphenated(peer_id),
            d.peer_fingerprint == peer_fingerprint,
            d.pin == pin,
            (exists|i: int|
                0 <= i < peers@.len() && (#[trigger] peers@[i]).device_id == peer_id && d.peer_name@
                    == peers@[i].device_name@ && forall|j: int|
                    0 <= j < i ==> (#[trigger] peers@[j]).device_id != peer_id) || ((forall|j: int|
                0 <= j < peers@.len() ==> (#[trigger] peers@[j]).device_id != peer_id) && d.peer_name@
                == uuid_hyphenated(peer_id)),
    {
        PairingRequestDto {
            peer_id: uuid_text(peer_id),
            peer_name: peer_name_for(peers, peer_id),
            peer_fingerprint,
            pin,
        }
    }
}

} // verus!
