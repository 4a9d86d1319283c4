//! The decisions of the transfer engine: what an incoming connection is for, the
//! events it reports about transfers and pairings, the messages of a pairing, and
//! what a pairing's outcome does to the trust store.
use vstd::prelude::*;

use crate::protocol::messages::{
    count_files, file_count, kind_of, Capabilities, CapsAck, Hello, Manifest, MessageKind,
    PairAccept, PairRequest, WireMessage, PROTOCOL_VERSION,
};
use crate::security::tofu::tofu_accepts;
use crate::security::trust_store::{trusted, TrustStore};
use crate::state::transfer::TransferProgress;

verus! {

/// The TCP port the engine listens on.
pub const LISTEN_PORT: u16 = 7878;

/// How long, in seconds, an incoming pairing request waits for the user's answer.
pub const PAIRING_ANSWER_SECS: u64 = 120;

/// Whether a transfer the engine reports sends or receives.
#[derive(Debug, Clone, Copy, PartialEq, Eq)]
pub enum TransferDirection {
    Send,
    Receive,
}

/// What happened to a transfer.
#[derive(Debug)]
pub enum TransferEventKind {
    /// The transfer is set up: with whom, which way, and how much it moves.
    Queued {
        peer_id: u128,
        peer_name: String,
        direction: TransferDirection,
        files_total: u32,
        total_bytes: u64,
    },
    /// The transfer made progress.
    Progress(TransferProgress),
    /// The transfer finished.
    Completed,
    /// The transfer stopped, for the reason given.
    Failed(String),
}

/// An event about the transfer `transfer_id`.
#[derive(Debug)]
pub struct TransferEvent {
    pub transfer_id: u128,
    pub event: TransferEventKind,
}

/// An event about a pairing.
#[derive(Debug)]
pub enum PairingEvent {
    /// A peer asks to pair, showing `pin`; the user is to answer.
    IncomingRequest { peer_id: u128, session_id: u128, pin: String, peer_fingerprint: String },
    /// A pairing ended, accepted or not.
    OutgoingResolved { session_id: u128, accepted: bool },
}

/// What an incoming connection is for, going by its first message.
#[derive(Debug)]
pub enum IncomingRoute {
    /// A peer opens a session; it is answered with `CapsAck`, and the connection goes on.
    Handshake(Hello),
    /// A peer asks to pair.
    Pairing(PairRequest),
    /// A peer sends files.
    Receive(Manifest),
    /// Anything else is ignored; its kind is given.
    Ignored(MessageKind),
}

/// The `CapsAck` a device (`device_id`, `device_name`, `fingerprint`) answers `hello`
/// with, given the peers it trusts.
pub open spec fn caps_ack_for(
    hello: Hello,
    device_id: u128,
    device_name: String,
    fingerprint: String,
    peers: Map<u128, String>,
) -> CapsAck {
    CapsAck {
        device_id,
        session_id: hello.session_id,
        device_name,
        cert_fingerprint: fingerprint,
        accepted_version: PROTOCOL_VERSION,
        requires_pairing: !trusted(peers, hello.device_id, hello.cert_fingerprint@),
    }
}

/// The transfer engine's decisions.
pub struct TransferEngine;

impl TransferEngine {
    /// What an incoming connection whose first message is `first` is for.
    pub fn route_incoming(first: WireMessage) -> (r: IncomingRoute)
        ensures
            match first {
                WireMessage::Hello(h) => r matches IncomingRoute::Handshake(h2) && h2 == h,
                WireMessage::PairRequest(q) => r matches IncomingRoute::Pairing(q2) && q2 == q,
                WireMessage::Manifest(m) => r matches IncomingRoute::Receive(m2) && m2 == m,
                _ => r matches IncomingRoute::Ignored(k) && k == kind_of(first),
            },
    {
        let k = first.kind();
        match first {
            WireMessage::Hello(h) => IncomingRoute::Handshake(h),
            WireMessage::PairRequest(q) => IncomingRoute::Pairing(q),
            WireMessage::Manifest(m) => IncomingRoute::Receive(m),
            _ => IncomingRoute::Ignored(k),
        }
    }

    /// The answer to a peer's `Hello`: a `CapsAck` for the same session carrying this
    /// device's id, name and certificate fingerprint, the protocol version of its
    /// default capabilities, and whether the peer must pair first: it must unless
    /// `trust` holds the fingerprint it announced as the one of its id.
    pub fn answer_hello(
        hello: &Hello,
        device_id: u128,
        device_name: String,
        fingerprint: String,
        trust: &TrustStore,
    ) -> (m: WireMessage)
        ensures
            m == WireMessage::CapsAck(
                caps_ack_for(*hello, device_id, device_name, fingerprint, trust.peers_view()),
            ),
    {
        let trusted = trust.is_trusted(hello.device_id, hello.cert_fingerprint.as_str());
        let caps = Capabilities::default();
        WireMessage::CapsAck(
            CapsAck {
                device_id,
                session_id: hello.session_id,
                device_name,
                cert_fingerprint: fingerprint,
                accepted_version: caps.protocol_version,
                requires_pairing: !trusted,
            },
        )
    }

    /// The event announcing a transfer received under `manifest`: from no known peer
    /// (id 0), named as the transfer, with the manifest's file count (in 32 bits)
    /// and total size.
    pub fn receive_queued(manifest: &Manifest) -> (e: TransferEventKind)
        ensures
            e matches TransferEventKind::Queued { peer_id, peer_name, direction, files_total, total_bytes }
                && peer_id == 0 && peer_name@ == manifest.transfer_name@ && direction
                == TransferDirection::Receive && files_total == file_count(manifest.files@) as u32
                && total_bytes == manifest.total_bytes,
    {
        TransferEventKind::Queued {
            peer_id: 0,
            peer_name: manifest.transfer_name.clone(),
            direction: TransferDirection::Receive,
            files_total: count_files(&manifest.files),
            total_bytes: manifest.total_bytes,
        }
    }

    /// The event announcing a transfer of `n_paths` picked paths sent to a peer: one
    /// file per picked path (in 32 bits), and a size not yet known (0).
    pub fn send_queued(peer_id: u128, peer_name: String, n_paths: usize) -> (e: TransferEventKind)
        ensures
            e matches TransferEventKind::Queued { peer_id: p, peer_name: n, direction, files_total, total_bytes }
                && p == peer_id && n == peer_name && direction == TransferDirection::Send
                && files_total == n_paths as u32 && total_bytes == 0,
    {
        TransferEventKind::Queued {
            peer_id,
            peer_name,
            direction: TransferDirection::Send,
            files_total: #[verifier::truncate] (n_paths as u32),
            total_bytes: 0,
        }
    }

    /// The event that ends a transfer: completed, or failed with the error's text.
    pub fn outcome_event(outcome: Result<(), String>) -> (e: TransferEventKind)
        ensures
            match outcome {
                Ok(()) => e is Completed,
                Err(msg) => e matches TransferEventKind::Failed(m) && m == msg,
            },
    {
        match outcome {
            Ok(()) => TransferEventKind::Completed,
            Err(msg) => TransferEventKind::Failed(msg),
        }
    }

    /// The event telling the user that a peer asks to pair.
    pub fn incoming_request_event(req: &PairRequest) -> (e: PairingEvent)
        ensures
            e matches PairingEvent::IncomingRequest { peer_id, session_id, pin, peer_fingerprint }
                && peer_id == req.device_id && session_id == req.session_id && pin@ == req.pin@
                && peer_fingerprint@ == req.peer_fingerprint@,
    {
        PairingEvent::IncomingRequest {
            peer_id: req.device_id,
            session_id: req.session_id,
            pin: req.pin.clone(),
            peer_fingerprint: req.peer_fingerprint.clone(),
        }
    }

    /// The event telling the user how a pairing ended.
    pub fn resolved_event(session_id: u128, accepted: bool) -> (e: PairingEvent)
        ensures
            e == (PairingEvent::OutgoingResolved { session_id, accepted }),
    {
        PairingEvent::OutgoingResolved { session_id, accepted }
    }

    /// The message asking a peer to pair: this device's id, the session, the PIN
    /// to show, and this device's certificate fingerprint.
    pub fn pair_request(device_id: u128, session_id: u128, pin: String, fingerprint: String) -> (m:
        WireMessage)
        ensures
            m == WireMessage::PairRequest(
                PairRequest { device_id, session_id, pin, peer_fingerprint: fingerprint },
            ),
    {
        WireMessage::PairRequest(
            PairRequest { device_id, session_id, pin, peer_fingerprint: fingerprint },
        )
    }

    /// The answer to a pairing request: this device's id, the session, the user's
    /// decision, and this device's certificate fingerprint.
    pub fn pair_answer(device_id: u128, session_id: u128, accepted: bool, fingerprint: String) -> (m:
        WireMessage)
        ensures
            m == WireMessage::PairAccept(
                PairAccept { device_id, session_id, accepted, peer_fingerprint: fingerprint },
            ),
    {
        WireMessage::PairAccept(
            PairAccept { device_id, session_id, accepted, peer_fingerprint: fingerprint },
        )
    }

    /// The user's answer to an incoming pairing request: what they answered, and a
    /// refusal when the wait timed out (`None`) or nobody could answer any more
    /// (`Some(None)`).
    pub fn pairing_answer(waited: Option<Option<bool>>) -> (accepted: bool)
        ensures
            accepted == (waited == Some(Some(true))),
    {
        match waited {
            Some(Some(a)) => a,
            _ => false,
        }
    }

    /// An incoming pairing request was answered: when accepted, the requesting peer
    /// is trusted with the fingerprint it sent; otherwise the store is unchanged.
    pub fn settle_incoming_pairing(trust: &mut TrustStore, req: &PairRequest, accepted: bool)
        ensures
            final(trust).peers_view() == if accepted {
                old(trust).peers_view().insert(req.device_id, req.peer_fingerprint)
            } else {
                old(trust).peers_view()
            },
            final(trust).path_view() == old(trust).path_view(),
    {
        if accepted {
            trust.add_peer(req.device_id, req.peer_fingerprint.clone());
        }
    }

    /// The peer's reply to this device's pairing request (`None`: none came): only a
    /// `PairAccept` that accepts makes the answering peer trusted, with the fingerprint
    /// it sent. Returns whether the pairing was accepted.
    pub fn settle_outgoing_pairing(trust: &mut TrustStore, reply: Option<WireMessage>) -> (accepted:
        bool)
        ensures
            match reply {
                Some(WireMessage::PairAccept(a)) => {
                    &&& accepted == a.accepted
                    &&& final(trust).peers_view() == if a.accepted {
                        old(trust).peers_view().insert(a.device_id, a.peer_fingerprint)
                    } else {
                        old(trust).peers_view()
                    }
                },
                _ => !accepted && final(trust).peers_view() == old(trust).peers_view(),
            },
            final(trust).path_view() == old(trust).path_view(),
    {
        match reply {
            Some(WireMessage::PairAccept(a)) => {
                if a.accepted {
                    trust.add_peer(a.device_id, a.peer_fingerprint);
                }
                a.accepted
            },
            _ => false,
        }
    }
}

/// A peer that paired is not asked to pair again: after an accepted pairing, its
/// `Hello` announcing the fingerprint it paired with is answered with a `CapsAck`
/// that asks for no pairing, and carries this device's id and fingerprint.
pub proof fn lemma_paired_peer_needs_no_pairing(
    before: Map<u128, String>,
    req: PairRequest,
    hello: Hello,
    device_id: u128,
    device_name: String,
    fingerprint: String,
)
    requires
        hello.device_id == req.device_id,
        hello.cert_fingerprint@ == req.peer_fingerprint@,
    ensures
        ({
            let ack = caps_ack_for(
                hello,
                device_id,
                device_name,
                fingerprint,
                before.insert(req.device_id, req.peer_fingerprint),
            );
            &&& !ack.requires_pairing
            &&& ack.device_id == device_id
            &&& ack.cert_fingerprint == fingerprint
            &&& ack.session_id == hello.session_id
        }),
{
}

/// Pairing is what trust on first use rests on: after a pairing that was accepted, a
/// connection that expects the paired peer accepts exactly the certificate whose
/// fingerprint the peer sent at pairing, and what is accepted of every other peer
/// is as before; a refused pairing changes nothing.
pub proof fn lemma_pairing_establishes_trust(
    before: Map<u128, String>,
    peer: u128,
    fingerprint: String,
    accepted: bool,
    expected: u128,
    shown: Seq<char>,
)
    ensures
        ({
            let after = if accepted {
                before.insert(peer, fingerprint)
            } else {
                before
            };
            &&& accepted ==> (tofu_accepts(after, Some(peer), shown) <==> shown == fingerprint@)
            &&& (expected != peer || !accepted) ==> tofu_accepts(after, Some(expected), shown)
                == tofu_accepts(before, Some(expected), shown)
        }),
{
}

} // verus!
