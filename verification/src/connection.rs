//! Opening a session with a peer: the `Hello` this device sends, and what the peer's
//! answer makes of the connection.
use vstd::prelude::*;

use crate::protocol::messages::{
    reply_error, reply_mismatch, Capabilities, Hello, MessageKind, ProtocolError, WireMessage,
};

verus! {

/// Seconds a connection attempt may take.
pub const CONNECT_TIMEOUT_SECS: u64 = 10;

/// The server name the TLS handshake asks for.
pub const TLS_SERVER_NAME: &'static str = "landrop";

/// A session opened with a peer: who answered, the fingerprint of the certificate
/// it showed, and whether it asks to pair first.
#[derive(Debug, Clone, PartialEq, Eq)]
pub struct PeerConnection {
    pub peer_id: u128,
    pub peer_name: String,
    pub peer_fingerprint: String,
    pub requires_pairing: bool,
}

impl PeerConnection {
    /// The `Hello` that opens a session: this device's id, a session id, its name,
    /// its operating system, its certificate fingerprint and its default capabilities.
    pub fn hello(device_id: u128, session_id: u128, device_name: String, os: String, fingerprint: String) -> (m:
        WireMessage)
        ensures
            m matches WireMessage::Hello(h) && h.device_id == device_id && h.session_id == session_id
                && h.device_name == device_name && h.os == os && h.cert_fingerprint == fingerprint
                && h.capabilities.protocol_version == crate::protocol::messages::PROTOCOL_VERSION
                && h.capabilities.max_chunk_size == crate::protocol::messages::MAX_CHUNK_SIZE
                && h.capabilities.supports_tls13 && h.capabilities.supports_resume,
    {
        WireMessage::Hello(
            Hello {
                device_id,
                session_id,
                device_name,
                os,
                cert_fingerprint: fingerprint,
                capabilities: Capabilities::default(),
            },
        )
    }

    /// The session a peer's answer to `Hello` opens (`None`: the connection closed):
    /// it must be a `CapsAck`, which names the peer and says whether it asks to pair;
    /// the fingerprint is that of the certificate the peer showed, empty if none was
    /// recorded.
    pub fn from_reply(reply: Option<WireMessage>, shown_fingerprint: Option<String>) -> (r: Result<
        PeerConnection,
        ProtocolError,
    >)
        ensures
            match reply {
                Some(WireMessage::CapsAck(c)) => r matches Ok(p) && p.peer_id == c.device_id
                    && p.peer_name == c.device_name && p.requires_pairing == c.requires_pairing
                    && p.peer_fingerprint@ == match shown_fingerprint {
                    Some(f) => f@,
                    None => Seq::<char>::empty(),
                },
                _ => r == Err::<PeerConnection, ProtocolError>(reply_error(MessageKind::CapsAck, reply)),
            },
    {
        match reply {
            Some(WireMessage::CapsAck(c)) => {
                let fp = match shown_fingerprint {
                    Some(f) => f,
                    None => String::new(),
                };
                Ok(
                    PeerConnection {
                        peer_id: c.device_id,
                        peer_name: c.device_name,
                        peer_fingerprint: fp,
                        requires_pairing: c.requires_pairing,
                    },
                )
            },
            _ => Err(reply_mismatch(MessageKind::CapsAck, &reply)),
        }
    }
}

} // verus!
