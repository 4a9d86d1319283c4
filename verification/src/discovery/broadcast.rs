//! Discovery by UDP broadcast: a device announces itself with `Discover` every few
//! seconds; whoever hears a `Discover` from another device registers it and answers
//! with `Here`; whoever hears a `Here` from another device registers it.
use vstd::prelude::*;

use crate::net::IpAddress;

verus! {

/// The UDP port discovery messages go to.
pub const BROADCAST_PORT: u16 = 7777;

/// The limited broadcast address 255.255.255.255.
pub const BROADCAST_ADDR: u32 = 0xffff_ffff;

/// Seconds between two announcements.
pub const ANNOUNCE_INTERVAL_SECS: u64 = 2;

/// The version a `Here` answer carries.
pub const HERE_VERSION: u16 = 1;

/// A discovery message.
#[derive(Debug, Clone, PartialEq, Eq)]
pub enum BroadcastMessage {
    /// Who is there? Sent to everyone, announcing the sender.
    Discover { device_id: u128, device_name: String, tcp_port: u16 },
    /// I am: the answer to a `Discover`.
    Here { device_id: u128, device_name: String, tcp_port: u16, version: u16 },
}

/// A device heard on the network: who it is, the address it was heard from, and the
/// TCP port it takes transfers on.
#[derive(Debug, Clone, PartialEq, Eq)]
pub struct BroadcastPeer {
    pub device_id: u128,
    pub device_name: String,
    pub addr: IpAddress,
    pub tcp_port: u16,
}

/// What a device does about a discovery message it heard.
#[derive(Debug)]
pub struct Heard {
    /// The device to register, if any.
    pub peer: Option<BroadcastPeer>,
    /// The answer to send back to where the message came from, if any.
    pub reply: Option<BroadcastMessage>,
}

/// This device, as broadcast discovery announces it.
#[derive(Debug, Clone)]
pub struct BroadcastDiscovery {
    pub device_id: u128,
    pub device_name: String,
    pub tcp_port: u16,
}

/// What this device does about `msg`, heard from `src`: nothing about its own
/// messages; a `Discover` registers its sender and is answered with `Here`; a `Here`
/// registers its sender.
pub open spec fn heard_spec(me: BroadcastDiscovery, msg: BroadcastMessage, src: IpAddress) -> (
    Option<BroadcastPeer>,
    Option<BroadcastMessage>,
) {
    match msg {
        BroadcastMessage::Discover { device_id, device_name, tcp_port } => if device_id == me.device_id {
            (None, None)
        } else {
            (
                Some(BroadcastPeer { device_id, device_name, addr: src, tcp_port }),
                Some(
                    BroadcastMessage::Here {
                        device_id: me.device_id,
                        device_name: me.device_name,
                        tcp_port: me.tcp_port,
                        version: HERE_VERSION,
                    },
                ),
            )
        },
        BroadcastMessage::Here { device_id, device_name, tcp_port, .. } => if device_id
            == me.device_id {
            (None, None)
        } else {
            (Some(BroadcastPeer { device_id, device_name, addr: src, tcp_port }), None)
        },
    }
}

impl BroadcastDiscovery {
    /// This device: its id, its name, and the TCP port it takes transfers on.
    pub fn new(device_id: u128, device_name: String, tcp_port: u16) -> (d: BroadcastDiscovery)
        ensures
            d.device_id == device_id,
            d.device_name == device_name,
            d.tcp_port == tcp_port,
    {
        BroadcastDiscovery { device_id, device_name, tcp_port }
    }

    /// The announcement this device broadcasts.
    pub fn announcement(&self) -> (m: BroadcastMessage)
        ensures
            m == (BroadcastMessage::Discover {
                device_id: self.device_id,
                device_name: self.device_name,
                tcp_port: self.tcp_port,
            }),
    {
        BroadcastMessage::Discover {
            device_id: self.device_id,
            device_name: self.device_name.clone(),
            tcp_port: self.tcp_port,
        }
    }

    /// What this device does about `msg`, heard from address `src`.
    pub fn hear(&self, msg: BroadcastMessage, src: IpAddress) -> (h: Heard)
        ensures
            (h.peer, h.reply) == heard_spec(*self, msg, src),
    {
        match msg {
            BroadcastMessage::Discover { device_id, device_name, tcp_port } => {
                if device_id == self.device_id {
                    Heard { peer: None, reply: None }
                } else {
                    Heard {
                        peer: Some(BroadcastPeer { device_id, device_name, addr: src, tcp_port }),
                        reply: Some(
                            BroadcastMessage::Here {
                                device_id: self.device_id,
                                device_name: self.device_name.clone(),
                                tcp_port: self.tcp_port,
                                version: HERE_VERSION,
                            },
                        ),
                    }
                }
            },
            BroadcastMessage::Here { device_id, device_name, tcp_port, version: _ } => {
                if device_id == self.device_id {
                    Heard { peer: None, reply: None }
                } else {
                    Heard {
                        peer: Some(BroadcastPeer { device_id, device_name, addr: src, tcp_port }),
                        reply: None,
                    }
                }
            },
        }
    }
}

/// Discovery finds each other: when one device hears another's announcement, it
/// registers the announcer at the address it heard it from, and its answer, heard by
/// the announcer, registers it in turn; no device registers itself.
pub proof fn lemma_discovery_is_mutual(a: BroadcastDiscovery, b: BroadcastDiscovery, a_addr: IpAddress, b_addr: IpAddress)
    requires
        a.device_id != b.device_id,
    ensures
        ({
            let announce = BroadcastMessage::Discover {
                device_id: a.device_id,
                device_name: a.device_name,
                tcp_port: a.tcp_port,
            };
            let (b_registers, b_answers) = heard_spec(b, announce, a_addr);
            &&& b_registers == Some(
                BroadcastPeer {
                    device_id: a.device_id,
                    device_name: a.device_name,
                    addr: a_addr,
                    tcp_port: a.tcp_port,
                },
            )
            &&& b_answers matches Some(answer) && heard_spec(a, answer, b_addr).0 == Some(
                BroadcastPeer {
                    device_id: b.device_id,
                    device_name: b.device_name,
                    addr: b_addr,
                    tcp_port: b.tcp_port,
                },
            )
            &&& heard_spec(a, announce, a_addr) == (None::<BroadcastPeer>, None::<BroadcastMessage>)
        }),
{
}

} // verus!
