//! The certificate check of a TLS client: trust on first use.
use vstd::prelude::*;

use crate::security::identity::{fingerprint_text, CertFingerprint};
use crate::security::trust_store::{trusted, TrustStore};

verus! {

/// Whether a certificate with fingerprint `fp` is accepted: with no expected peer
/// (a first pairing handshake) any certificate is; with an expected peer, only the
/// fingerprint recorded for that peer is.
pub open spec fn tofu_accepts(peers: Map<u128, String>, hint: Option<u128>, fp: Seq<char>) -> bool {
    match hint {
        Some(id) => trusted(peers, id, fp),
        None => true,
    }
}

/// Why a server certificate was refused.
#[derive(Debug, PartialEq, Eq)]
pub enum VerifyError {
    /// The peer is not trusted with this certificate; pairing is required.
    PeerNotTrusted,
}

/// The state of one TLS client's certificate check: the peer it expects, and the
/// fingerprint of the last certificate it was shown.
pub struct TofuVerifier {
    pub peer_id_hint: Option<u128>,
    pub last_seen_fingerprint: Option<String>,
}

impl TofuVerifier {
    /// A check that expects no particular peer and has seen no certificate.
    pub fn new() -> (v: TofuVerifier)
        ensures
            v.peer_id_hint == None::<u128>,
            v.last_seen_fingerprint == None::<String>,
    {
        TofuVerifier { peer_id_hint: None, last_seen_fingerprint: None }
    }

    /// Expect the peer `id`.
    pub fn set_peer_id_hint(&mut self, id: u128)
        ensures
            final(self).peer_id_hint == Some(id),
            final(self).last_seen_fingerprint == old(self).last_seen_fingerprint,
    {
        self.peer_id_hint = Some(id);
    }

    /// The fingerprint of the last certificate shown, if any.
    pub fn last_fingerprint(&self) -> (fp: Option<String>)
        ensures
            fp == self.last_seen_fingerprint,
    {
        match &self.last_seen_fingerprint {
            Some(s) => Some(s.clone()),
            None => None,
        }
    }

    /// Checks the server's end-entity certificate (DER): records its fingerprint, then
    /// accepts it unless a peer is expected and `store` does not hold this fingerprint
    /// for that peer.
    pub fn verify_server_cert(&mut self, store: &TrustStore, end_entity: &[u8]) -> (r: Result<
        (),
        VerifyError,
    >)
        ensures
            final(self).peer_id_hint == old(self).peer_id_hint,
            final(self).last_seen_fingerprint matches Some(fp) && fp@ == fingerprint_text(
                end_entity@,
            ),
            r is Ok <==> tofu_accepts(
                store.peers_view(),
                old(self).peer_id_hint,
                fingerprint_text(end_entity@),
            ),
            r is Err ==> r == Err::<(), VerifyError>(VerifyError::PeerNotTrusted),
    {
        let fp = CertFingerprint::from_der(end_entity);
        self.last_seen_fingerprint = Some(fp.0.clone());
        match self.peer_id_hint {
            Some(id) => {
                if store.is_trusted(id, fp.as_str()) {
                    Ok(())
                } else {
                    Err(VerifyError::PeerNotTrusted)
                }
            },
            None => Ok(()),
        }
    }
}

/// Once a peer's certificate has been recorded at pairing, a later connection that
/// expects that peer accepts the same certificate and refuses any other.
pub proof fn lemma_paired_certificate_accepted(
    peers: Map<u128, String>,
    id: u128,
    paired: String,
    der: Seq<u8>,
)
    requires
        paired@ == fingerprint_text(der),
    ensures
        tofu_accepts(peers.insert(id, paired), Some(id), fingerprint_text(der)),
        forall|fp: Seq<char>|
            fp != paired@ ==> !tofu_accepts(peers.insert(id, paired), Some(id), fp),
{
}

} // verus!
