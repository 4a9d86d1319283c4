//! The application state: the known peers, the transfers under way, the finished
//! transfers, and the directory received files go to.
use dashmap::DashMap;
use vstd::prelude::*;

use crate::state::peer::Peer;
use crate::state::transfer::{same_transfer, Transfer};

verus! {

/// A table of peers by id.
pub type PeerTable = DashMap<u128, Peer>;

/// A table of transfers by id.
pub type TransferTable = DashMap<u128, Transfer>;

/// The peers a peer table holds.
pub uninterp spec fn peer_table(m: PeerTable) -> Map<u128, Peer>;

/// The transfers a transfer table holds.
pub uninterp spec fn transfer_table(m: TransferTable) -> Map<u128, Transfer>;

/// `vals` lists the values of `m`, each once, in some order.
pub open spec fn lists_peers(m: Map<u128, Peer>, vals: Seq<Peer>) -> bool {
    exists|keys: Seq<u128>|
        #![trigger keys.to_set()]
        keys.len() == vals.len() && keys.no_duplicates() && keys.to_set() == m.dom() && forall|i: int|
            0 <= i < keys.len() ==> m[#[trigger] keys[i]] == vals[i]
}

/// `vals` lists the values of `m`, each once, in some order.
pub open spec fn lists_transfers(m: Map<u128, Transfer>, vals: Seq<Transfer>) -> bool {
    exists|keys: Seq<u128>|
        #![trigger keys.to_set()]
        keys.len() == vals.len() && keys.no_duplicates() && keys.to_set() == m.dom() && forall|i: int|
            0 <= i < keys.len() ==> same_transfer(m[#[trigger] keys[i]], vals[i])
}

/// The table with no peer.
pub open spec fn no_peers() -> Map<u128, Peer> {
    Map::empty()
}

/// The table with no transfer.
pub open spec fn no_transfers() -> Map<u128, Transfer> {
    Map::empty()
}

/// `DashMap::new`: an empty peer table.
#[verifier::external_body]
fn peers_new() -> (table: PeerTable)
    ensures
        peer_table(table) == no_peers(),
{
    DashMap::new()
}

/// `DashMap::insert` on a peer table.
#[verifier::external_body]
fn peers_insert(m: &mut PeerTable, k: u128, v: Peer)
    ensures
        peer_table(*final(m)) == peer_table(*old(m)).insert(k, v),
{
    m.insert(k, v);
}

/// `DashMap::remove` on a peer table.
#[verifier::external_body]
fn peers_remove(m: &mut PeerTable, k: u128)
    ensures
        peer_table(*final(m)) == peer_table(*old(m)).remove(k),
{
    m.remove(&k);
}

/// `DashMap::iter` over a peer table, each peer cloned out of its guard.
#[verifier::external_body]
fn peers_values(m: &PeerTable) -> (vals: Vec<Peer>)
    ensures
        lists_peers(peer_table(*m), vals@),
{
    m.iter().map(|e| e.value().clone()).collect()
}

/// `DashMap::new`: an empty transfer table.
#[verifier::external_body]
fn transfers_new() -> (table: TransferTable)
    ensures
        transfer_table(table) == no_transfers(),
{
    DashMap::new()
}

/// `DashMap::insert` on a transfer table.
#[verifier::external_body]
fn transfers_insert(m: &mut TransferTable, k: u128, v: Transfer)
    ensures
        transfer_table(*final(m)) == transfer_table(*old(m)).insert(k, v),
{
    m.insert(k, v);
}

/// `DashMap::remove` on a transfer table: takes the entry under `k` out.
#[verifier::external_body]
fn transfers_remove(m: &mut TransferTable, k: u128) -> (r: Option<Transfer>)
    ensures
        transfer_table(*final(m)) == transfer_table(*old(m)).remove(k),
        r == (if transfer_table(*old(m)).contains_key(k) {
            Some(transfer_table(*old(m))[k])
        } else {
            None
        }),
{
    m.remove(&k).map(|(_, v)| v)
}

/// `DashMap::iter` over a transfer table, each transfer cloned out of its guard.
#[verifier::external_body]
fn transfers_values(m: &TransferTable) -> (vals: Vec<Transfer>)
    ensures
        lists_transfers(transfer_table(*m), vals@),
{
    m.iter().map(|e| e.value().clone()).collect()
}

/// The state the application shares between its services.
pub struct AppState {
    pub device_id: u128,
    pub device_name: String,
    pub peers: PeerTable,
    pub transfers: TransferTable,
    pub history: Vec<Transfer>,
    pub receive_dir: String,
}

impl AppState {
    /// The known peers, by id.
    pub open spec fn peer_map(&self) -> Map<u128, Peer> {
        peer_table(self.peers)
    }

    /// The transfers under way, by id.
    pub open spec fn transfer_map(&self) -> Map<u128, Transfer> {
        transfer_table(self.transfers)
    }

    /// A state with no peer, no transfer and no history.
    pub fn new(device_id: u128, device_name: String, receive_dir: String) -> (s: AppState)
        ensures
            s.device_id == device_id,
            s.device_name == device_name,
            s.receive_dir == receive_dir,
            s.peer_map() == no_peers(),
            s.transfer_map() == no_transfers(),
            s.history@ == Seq::<Transfer>::empty(),
    {
        AppState {
            device_id,
            device_name,
            peers: peers_new(),
            transfers: transfers_new(),
            history: Vec::new(),
            receive_dir,
        }
    }

    /// Records `peer` under its id, replacing an earlier record of it.
    pub fn upsert_peer(&mut self, peer: Peer)
        ensures
            final(self).peer_map() == old(self).peer_map().insert(peer.id, peer),
            final(self).transfer_map() == old(self).transfer_map(),
            final(self).history == old(self).history,
            final(self).receive_dir == old(self).receive_dir,
    {
        let id = peer.id;
        peers_insert(&mut self.peers, id, peer);
    }

    /// Forgets peer `id`.
    pub fn remove_peer(&mut self, id: u128)
        ensures
            final(self).peer_map() == old(self).peer_map().remove(id),
            final(self).transfer_map() == old(self).transfer_map(),
            final(self).history == old(self).history,
            final(self).receive_dir == old(self).receive_dir,
    {
        peers_remove(&mut self.peers, id);
    }

    /// The known peers, each once.
    pub fn get_peers(&self) -> (v: Vec<Peer>)
        ensures
            lists_peers(self.peer_map(), v@),
    {
        peers_values(&self.peers)
    }

    /// Records a transfer under its id and returns the id.
    pub fn add_transfer(&mut self, t: Transfer) -> (id: u128)
        ensures
            id == t.id,
            final(self).transfer_map() == old(self).transfer_map().insert(t.id, t),
            final(self).peer_map() == old(self).peer_map(),
            final(self).history == old(self).history,
            final(self).receive_dir == old(self).receive_dir,
    {
        let id = t.id;
        transfers_insert(&mut self.transfers, id, t);
        id
    }

    /// Replaces transfer `id`, if there is one, by what `f` makes of it.
    pub fn update_transfer<F: FnOnce(Transfer) -> Transfer>(&mut self, id: u128, f: F)
        requires
            forall|t: Transfer| f.requires((t,)),
        ensures
            old(self).transfer_map().contains_key(id) ==> exists|r: Transfer|
                f.ensures((old(self).transfer_map()[id],), r) && final(self).transfer_map()
                    == old(self).transfer_map().insert(id, r),
            !old(self).transfer_map().contains_key(id) ==> final(self).transfer_map()
                == old(self).transfer_map(),
            final(self).peer_map() == old(self).peer_map(),
            final(self).history == old(self).history,
            final(self).receive_dir == old(self).receive_dir,
    {
        match transfers_remove(&mut self.transfers, id) {
            Some(t) => {
                let updated = f(t);
                transfers_insert(&mut self.transfers, id, updated);
                proof {
                    assert(old(self).transfer_map().remove(id).insert(id, updated)
                        =~= old(self).transfer_map().insert(id, updated));
                }
            },
            None => {
                proof {
                    assert(old(self).transfer_map().remove(id) =~= old(self).transfer_map());
                }
            },
        }
    }

    /// Moves transfer `id`, if it is under way, to the history.
    pub fn complete_transfer(&mut self, id: u128)
        ensures
            final(self).transfer_map() == old(self).transfer_map().remove(id),
            old(self).transfer_map().contains_key(id) ==> final(self).history@ == old(
                self,
            ).history@.push(old(self).transfer_map()[id]),
            !old(self).transfer_map().contains_key(id) ==> final(self).history@ == old(
                self,
            ).history@,
            final(self).peer_map() == old(self).peer_map(),
            final(self).receive_dir == old(self).receive_dir,
    {
        match transfers_remove(&mut self.transfers, id) {
            Some(t) => {
                self.history.push(t);
            },
            None => {},
        }
    }

    /// The transfers under way, each once.
    pub fn get_transfers(&self) -> (v: Vec<Transfer>)
        ensures
            lists_transfers(self.transfer_map(), v@),
    {
        transfers_values(&self.transfers)
    }

    /// The finished transfers, oldest first.
    pub fn get_history(&self) -> (v: Vec<Transfer>)
        ensures
            v@.len() == self.history@.len(),
            forall|i: int| 0 <= i < v@.len() ==> same_transfer(#[trigger] v@[i], self.history@[i]),
    {
        let mut v: Vec<Transfer> = Vec::new();
        let mut i: usize = 0;
        while i < self.history.len()
            invariant
                i <= self.history@.len(),
                v@.len() == i,
                forall|j: int| 0 <= j < i ==> same_transfer(#[trigger] v@[j], self.history@[j]),
            decreases self.history@.len() - i,
        {
            v.push(self.history[i].clone());
            i = i + 1;
        }
        v
    }

    /// The directory received files go to.
    pub fn receive_dir(&self) -> (d: String)
        ensures
            d == self.receive_dir,
    {
        self.receive_dir.clone()
    }

    /// Sets the directory received files go to.
    pub fn set_receive_dir(&mut self, path: String)
        ensures
            final(self).receive_dir == path,
            final(self).peer_map() == old(self).peer_map(),
            final(self).transfer_map() == old(self).transfer_map(),
            final(self).history == old(self).history,
    {
        self.receive_dir = path;
    }
}

} // verus!
