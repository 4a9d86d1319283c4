//! Trust on first use: the fingerprints of the peers this device has paired with,
//! by peer id.
use std::collections::HashMap;
use vstd::prelude::*;

use crate::text::str_eq;

verus! {

broadcast use vstd::std_specs::hash::group_hash_axioms;

/// Whether `peers` holds `fp` as the fingerprint of peer `id`.
pub open spec fn trusted(peers: Map<u128, String>, id: u128, fp: Seq<char>) -> bool {
    peers.contains_key(id) && peers[id]@ == fp
}

/// The fingerprints of the paired peers, and the file they are kept in.
pub struct TrustStore {
    peers: HashMap<u128, String>,
    path: String,
}

impl TrustStore {
    /// The fingerprint recorded for each paired peer.
    pub closed spec fn peers_view(&self) -> Map<u128, String> {
        self.peers@
    }

    /// The path of the file the store is kept in.
    pub closed spec fn path_view(&self) -> Seq<char> {
        self.path@
    }

    /// An empty store kept in the file at `path`.
    pub fn with_path(path: String) -> (s: TrustStore)
        ensures
            s.peers_view() == Map::<u128, String>::empty(),
            s.path_view() == path@,
    {
        TrustStore { peers: HashMap::new(), path }
    }

    /// Whether `fingerprint` is the one recorded for peer `id`.
    pub fn is_trusted(&self, id: u128, fingerprint: &str) -> (r: bool)
        ensures
            r == trusted(self.peers_view(), id, fingerprint@),
    {
        match self.peers.get(&id) {
            Some(fp) => str_eq(fp.as_str(), fingerprint),
            None => false,
        }
    }

    /// Records `fingerprint` as the fingerprint of peer `id`, replacing an earlier one.
    pub fn add_peer(&mut self, id: u128, fingerprint: String)
        ensures
            final(self).peers_view() == old(self).peers_view().insert(id, fingerprint),
            final(self).path_view() == old(self).path_view(),
    {
        self.peers.insert(id, fingerprint);
    }

    /// Forgets peer `id`.
    pub fn remove_peer(&mut self, id: u128)
        ensures
            final(self).peers_view() == old(self).peers_view().remove(id),
            final(self).path_view() == old(self).path_view(),
    {
        self.peers.remove(&id);
    }

    /// Whether a fingerprint is recorded for peer `id`.
    pub fn contains(&self, id: u128) -> (r: bool)
        ensures
            r == self.peers_view().contains_key(id),
    {
        self.peers.contains_key(&id)
    }

    /// The recorded fingerprints, by peer id.
    pub fn peers(&self) -> (m: &HashMap<u128, String>)
        ensures
            m@ == self.peers_view(),
    {
        &self.peers
    }

    /// The path of the file the store is kept in.
    pub fn path(&self) -> (p: &str)
        ensures
            p@ == self.path_view(),
    {
        self.path.as_str()
    }
}

impl Default for TrustStore {
    fn default() -> (s: Self)
        ensures
            s.peers_view() == Map::<u128, String>::empty(),
            s.path_view() == Seq::<char>::empty(),
    {
        TrustStore::with_path(String::new())
    }
}

/// A peer recorded with a fingerprint is trusted with exactly that fingerprint,
/// whatever the store held before; a forgotten peer is trusted with none.
pub proof fn lemma_add_then_trusted(peers: Map<u128, String>, id: u128, fp: String, other: Seq<char>)
    ensures
        trusted(peers.insert(id, fp), id, fp@),
        other != fp@ ==> !trusted(peers.insert(id, fp), id, other),
        !trusted(peers.remove(id), id, other),
{
}

/// Recording or forgetting one peer leaves the trust in every other peer as it was.
pub proof fn lemma_other_peers_unchanged(
    peers: Map<u128, String>,
    id: u128,
    fp: String,
    other_id: u128,
    other_fp: Seq<char>,
)
    requires
        other_id != id,
    ensures
        trusted(peers.insert(id, fp), other_id, other_fp) == trusted(peers, other_id, other_fp),
        trusted(peers.remove(id), other_id, other_fp) == trusted(peers, other_id, other_fp),
{
}

} // verus!
