//! The table of devices discovery has found: a sighting adds or refreshes a device,
//! and a device unseen for longer than its time to live is evicted.
use dashmap::DashMap;
use vstd::prelude::*;

use crate::discovery::broadcast::BroadcastPeer;
use crate::discovery::mdns::MdnsPeer;
use crate::ids::{new_id, parse_id, uuid_parse};
use crate::net::SocketAddress;

verus! {

/// How long, in milliseconds, a device stays listed after it was last heard.
pub const PEER_TTL_MS: u64 = 8000;

/// Milliseconds between two looks for devices to evict.
pub const EVICT_INTERVAL_MS: u64 = 1000;

/// A device discovery found: who it is, where it takes transfers, and when it was
/// last heard (milliseconds since the Unix epoch).
#[derive(Debug)]
pub struct DiscoveredPeer {
    pub device_id: u128,
    pub device_name: String,
    pub addr: SocketAddress,
    pub last_seen_ms: u64,
}

impl Clone for DiscoveredPeer {
    fn clone(&self) -> (res: Self)
        ensures
            res == *self,
    {
        DiscoveredPeer {
            device_id: self.device_id,
            device_name: self.device_name.clone(),
            addr: self.addr,
            last_seen_ms: self.last_seen_ms,
        }
    }
}

/// A change to the table of discovered devices.
#[derive(Debug)]
pub enum DiscoveryEvent {
    /// A device was heard for the first time.
    PeerAdded(DiscoveredPeer),
    /// A listed device was heard again.
    PeerUpdated(DiscoveredPeer),
    /// A device went unheard too long and is no longer listed.
    PeerExpired(u128),
}

/// A table of discovered devices by id.
pub type DiscoveredTable = DashMap<u128, DiscoveredPeer>;

/// The devices a table holds.
pub uninterp spec fn discovered_table(m: DiscoveredTable) -> Map<u128, DiscoveredPeer>;

/// The table with no device.
pub open spec fn none_discovered() -> Map<u128, DiscoveredPeer> {
    Map::empty()
}

/// `vals` lists the values of `m`, each once, in some order.
pub open spec fn lists_discovered(m: Map<u128, DiscoveredPeer>, vals: Seq<DiscoveredPeer>) -> bool {
    exists|keys: Seq<u128>|
        #![trigger keys.to_set()]
        keys.len() == vals.len() && keys.no_duplicates() && keys.to_set() == m.dom() && forall|i: int|
            0 <= i < keys.len() ==> m[#[trigger] keys[i]] == vals[i]
}

/// `DashMap::new`: an empty table.
#[verifier::external_body]
fn table_new() -> (t: DiscoveredTable)
    ensures
        discovered_table(t) == none_discovered(),
{
    DashMap::new()
}

/// `DashMap::contains_key`.
#[verifier::external_body]
fn table_contains(t: &DiscoveredTable, k: u128) -> (r: bool)
    ensures
        r == discovered_table(*t).contains_key(k),
{
    t.contains_key(&k)
}

/// `DashMap::insert`.
#[verifier::external_body]
fn table_insert(t: &mut DiscoveredTable, k: u128, v: DiscoveredPeer)
    ensures
        discovered_table(*final(t)) == discovered_table(*old(t)).insert(k, v),
{
    t.insert(k, v);
}

/// `DashMap::remove`.
#[verifier::external_body]
fn table_remove(t: &mut DiscoveredTable, k: u128)
    ensures
        discovered_table(*final(t)) == discovered_table(*old(t)).remove(k),
{
    t.remove(&k);
}

/// `DashMap::iter`, each device cloned out of its guard.
#[verifier::external_body]
fn table_values(t: &DiscoveredTable) -> (vals: Vec<DiscoveredPeer>)
    ensures
        lists_discovered(discovered_table(*t), vals@),
{
    t.iter().map(|e| e.value().clone()).collect()
}

/// Whether a device last heard at `last_seen` is, at `now`, past its time to live:
/// more than `PEER_TTL_MS` milliseconds between the two, the difference taken in
/// 64-bit wrapping arithmetic (so a clock that went back makes it stale at once).
pub open spec fn stale(now: u64, last_seen: u64) -> bool {
    vstd::wrapping::u64_specs::wrapping_sub(now, last_seen) > PEER_TTL_MS
}

/// The first device of `peers` with id `id`, if any.
pub fn find_peer(peers: &Vec<DiscoveredPeer>, id: u128) -> (r: Option<DiscoveredPeer>)
    ensures
        match r {
            Some(p) => exists|i: int|
                0 <= i < peers@.len() && peers@[i] == p && p.device_id == id && forall|j: int|
                    0 <= j < i ==> (#[trigger] peers@[j]).device_id != id,
            None => forall|j: int| 0 <= j < peers@.len() ==> (#[trigger] peers@[j]).device_id != id,
        },
{
    let mut i: usize = 0;
    while i < peers.len()
        invariant
            i <= peers@.len(),
            forall|j: int| 0 <= j < i ==> (#[trigger] peers@[j]).device_id != id,
        decreases peers@.len() - i,
    {
        if peers[i].device_id == id {
            return Some(peers[i].clone());
        }
        i = i + 1;
    }
    None
}

/// The first device of `peers` whose id is the one the text `text` names; `None`
/// when the text names no id or no device has it.
pub fn peer_for_text(peers: &Vec<DiscoveredPeer>, text: &str) -> (r: Option<DiscoveredPeer>)
    ensures
        uuid_parse(text@) is None ==> r is None,
        uuid_parse(text@) matches Some(id) ==> (r is Some <==> exists|i: int|
            0 <= i < peers@.len() && (#[trigger] peers@[i]).device_id == id),
        r matches Some(p) ==> uuid_parse(text@) == Some(p.device_id) && exists|i: int|
            0 <= i < peers@.len() && peers@[i] == p && forall|j: int|
                0 <= j < i ==> (#[trigger] peers@[j]).device_id != p.device_id,
{
    match parse_id(text) {
        Some(id) => find_peer(peers, id),
        None => None,
    }
}

/// A device stays listed for `PEER_TTL_MS` after it was last heard, and no longer:
/// an eviction at most that long after the sighting keeps it, a later one removes it.
pub proof fn lemma_listed_for_ttl(seen_ms: u64, now_ms: u64)
    requires
        seen_ms <= now_ms,
    ensures
        stale(now_ms, seen_ms) <==> now_ms - seen_ms > PEER_TTL_MS,
{
}

/// `after` is `before` with `peer` listed under its id, and `e` reports it as added
/// when it was not listed before, as updated when it was; this device is unchanged.
pub open spec fn sighting_recorded(
    before: DiscoveryManager,
    after: DiscoveryManager,
    peer: DiscoveredPeer,
    e: DiscoveryEvent,
) -> bool {
    &&& after.peers_view() == before.peers_view().insert(peer.device_id, peer)
    &&& if before.peers_view().contains_key(peer.device_id) {
        e == DiscoveryEvent::PeerUpdated(peer)
    } else {
        e == DiscoveryEvent::PeerAdded(peer)
    }
    &&& after.id() == before.id()
    &&& after.name() == before.name()
}

/// The devices discovery has found, by id, and this device.
pub struct DiscoveryManager {
    device_id: u128,
    device_name: String,
    peers: DiscoveredTable,
}

impl DiscoveryManager {
    /// The listed devices, by id.
    pub closed spec fn peers_view(&self) -> Map<u128, DiscoveredPeer> {
        discovered_table(self.peers)
    }

    /// Every listed device is listed under its own id.
    #[verifier::type_invariant]
    closed spec fn keyed_by_id(&self) -> bool {
        forall|k: u128| #[trigger] self.peers_view().contains_key(k) ==> self.peers_view()[k].device_id == k
    }

    /// This device's id.
    pub closed spec fn id(&self) -> u128 {
        self.device_id
    }

    /// This device's name.
    pub closed spec fn name(&self) -> Seq<char> {
        self.device_name@
    }

    /// A manager for this device (`device_id`, `device_name`) with no device listed.
    pub fn new(device_id: u128, device_name: String) -> (m: DiscoveryManager)
        ensures
            m.id() == device_id,
            m.name() == device_name@,
            m.peers_view() == none_discovered(),
    {
        DiscoveryManager { device_id, device_name, peers: table_new() }
    }

    /// This device's id.
    pub fn device_id(&self) -> (id: u128)
        ensures
            id == self.id(),
    {
        self.device_id
    }

    /// This device's name.
    pub fn device_name(&self) -> (n: String)
        ensures
            n@ == self.name(),
    {
        self.device_name.clone()
    }

    /// Device `p` was heard at `now_ms`: it is listed (again) at its address and TCP
    /// port, last seen now. Reports it as added when it was not listed, as updated
    /// when it was.
    pub fn record_sighting(&mut self, p: BroadcastPeer, now_ms: u64) -> (e: DiscoveryEvent)
        ensures
            sighting_recorded(
                *old(self),
                *final(self),
                DiscoveredPeer {
                    device_id: p.device_id,
                    device_name: p.device_name,
                    addr: SocketAddress { ip: p.addr, port: p.tcp_port },
                    last_seen_ms: now_ms,
                },
                e,
            ),
    {
        let peer = DiscoveredPeer {
            device_id: p.device_id,
            device_name: p.device_name,
            addr: SocketAddress { ip: p.addr, port: p.tcp_port },
            last_seen_ms: now_ms,
        };
        self.record(peer)
    }

    /// Device `p` was found by mDNS at `now_ms`: it is listed (again) at its address
    /// and the port its service announces, last seen now, exactly as a device heard by
    /// broadcast. Reports it as added when it was not listed, as updated when it was.
    pub fn record_mdns_sighting(&mut self, p: MdnsPeer, now_ms: u64) -> (e: DiscoveryEvent)
        ensures
            sighting_recorded(
                *old(self),
                *final(self),
                DiscoveredPeer {
                    device_id: p.device_id,
                    device_name: p.device_name,
                    addr: SocketAddress { ip: p.addr, port: p.port },
                    last_seen_ms: now_ms,
                },
                e,
            ),
    {
        let peer = DiscoveredPeer {
            device_id: p.device_id,
            device_name: p.device_name,
            addr: SocketAddress { ip: p.addr, port: p.port },
            last_seen_ms: now_ms,
        };
        self.record(peer)
    }

    /// Lists `peer` under its id, reporting it as added or updated.
    fn record(&mut self, peer: DiscoveredPeer) -> (e: DiscoveryEvent)
        ensures
            sighting_recorded(*old(self), *final(self), peer, e),
    {
        proof {
            use_type_invariant(&*self);
        }
        let id = peer.device_id;
        let event = if table_contains(&self.peers, id) {
            DiscoveryEvent::PeerUpdated(peer.clone())
        } else {
            DiscoveryEvent::PeerAdded(peer.clone())
        };
        let mut peers = table_new();
        std::mem::swap(&mut peers, &mut self.peers);
        table_insert(&mut peers, id, peer);
        self.peers = peers;
        event
    }

    /// Evicts, at `now_ms`, every listed device that is past its time to live, and
    /// returns their ids, each once; every other device stays listed as it was.
    pub fn evict_expired(&mut self, now_ms: u64) -> (gone: Vec<u128>)
        ensures
            gone@.no_duplicates(),
            forall|k: u128|
                gone@.contains(k) <==> (old(self).peers_view().contains_key(k) && stale(
                    now_ms,
                    #[trigger] old(self).peers_view()[k].last_seen_ms,
                )),
            final(self).peers_view() == old(self).peers_view().remove_keys(gone@.to_set()),
            final(self).id() == old(self).id(),
            final(self).name() == old(self).name(),
    {
        proof {
            use_type_invariant(&*self);
        }
        let listed = table_values(&self.peers);
        let ghost m0 = self.peers_view();
        let ghost keys = choose|keys: Seq<u128>|
            #![trigger keys.to_set()]
            keys.len() == listed@.len() && keys.no_duplicates() && keys.to_set() == m0.dom()
                && forall|i: int| 0 <= i < keys.len() ==> m0[#[trigger] keys[i]] == listed@[i];
        let mut gone: Vec<u128> = Vec::new();
        let mut peers = table_new();
        std::mem::swap(&mut peers, &mut self.peers);
        let mut i: usize = 0;
        while i < listed.len()
            invariant
                i <= listed@.len(),
                keys.len() == listed@.len(),
                keys.no_duplicates(),
                keys.to_set() == m0.dom(),
                forall|j: int| 0 <= j < keys.len() ==> m0[#[trigger] keys[j]] == listed@[j],
                forall|k: u128| #[trigger] m0.contains_key(k) ==> m0[k].device_id == k,
                gone@.no_duplicates(),
                forall|k: u128|
                    gone@.contains(k) <==> (exists|j: int|
                        0 <= j < i && keys[j] == k && stale(now_ms, #[trigger] listed@[j].last_seen_ms)),
                discovered_table(peers) == m0.remove_keys(gone@.to_set()),
            decreases listed@.len() - i,
        {
            let p = &listed[i];
            proof {
                assert(m0.contains_key(keys[i as int])) by {
                    assert(keys.to_set().contains(keys[i as int]));
                }
                assert(p.device_id == keys[i as int]);
            }
            if now_ms.wrapping_sub(p.last_seen_ms) > PEER_TTL_MS {
                let id = p.device_id;
                proof {
                    assert forall|j: int| 0 <= j < i implies keys[j] != id by {
                        assert(keys[j] != keys[i as int]);
                    }
                    assert(!gone@.contains(id));
                }
                table_remove(&mut peers, id);
                let ghost before = gone@;
                gone.push(id);
                proof {
                    assert(gone@.to_set() == before.to_set().insert(id)) by {
                        assert(gone@ == before.push(id));
                        before.lemma_push_to_set_commute(id);
                    }
                    assert(m0.remove_keys(before.to_set()).remove(id) =~= m0.remove_keys(gone@.to_set()));
                    assert forall|k: u128|
                        gone@.contains(k) <==> (exists|j: int|
                            0 <= j < i + 1 && keys[j] == k && stale(now_ms, #[trigger] listed@[j].last_seen_ms)) by {
                        if gone@.contains(k) && k != id {
                            assert(before.contains(k));
                        }
                        if k == id {
                            assert(gone@[gone@.len() - 1] == id);
                        }
                        if exists|j: int| 0 <= j < i + 1 && keys[j] == k && stale(now_ms, #[trigger] listed@[j].last_seen_ms) {
                            let j = choose|j: int| 0 <= j < i + 1 && keys[j] == k && stale(now_ms, #[trigger] listed@[j].last_seen_ms);
                            if j < i {
                                assert(before.contains(k));
                                assert(gone@.contains(k)) by {
                                    let t = choose|t: int| 0 <= t < before.len() && before[t] == k;
                                    assert(gone@[t] == k);
                                }
                            } else {
                                assert(gone@[gone@.len() - 1] == id);
                            }
                        }
                    }
                }
            } else {
                proof {
                    assert forall|k: u128|
                        gone@.contains(k) <==> (exists|j: int|
                            0 <= j < i + 1 && keys[j] == k && stale(now_ms, #[trigger] listed@[j].last_seen_ms)) by {
                        if exists|j: int| 0 <= j < i + 1 && keys[j] == k && stale(now_ms, #[trigger] listed@[j].last_seen_ms) {
                            let j = choose|j: int| 0 <= j < i + 1 && keys[j] == k && stale(now_ms, #[trigger] listed@[j].last_seen_ms);
                            assert(j < i);
                        }
                    }
                }
            }
            i = i + 1;
        }
        proof {
            assert forall|k: u128|
                gone@.contains(k) <==> (m0.contains_key(k) && stale(now_ms, #[trigger] m0[k].last_seen_ms)) by {
                if m0.contains_key(k) {
                    assert(keys.to_set().contains(k));
                    let j = choose|j: int| 0 <= j < keys.len() && keys[j] == k;
                    assert(listed@[j] == m0[k]);
                }
            }
        }
        self.peers = peers;
        gone
    }

    /// The listed devices, each once, in some order.
    pub fn get_peers(&self) -> (v: Vec<DiscoveredPeer>)
        ensures
            lists_discovered(self.peers_view(), v@),
            forall|k: u128| #[trigger] self.peers_view().contains_key(k) ==> self.peers_view()[k].device_id == k,
    {
        proof {
            use_type_invariant(self);
        }
        table_values(&self.peers)
    }

    /// The device a manual probe of `addr` reached, before any exchange with it: a
    /// fresh random id, named after the address's text `addr_text`, seen at `now_ms`.
    pub fn probed_peer(addr: SocketAddress, addr_text: String, now_ms: u64) -> (p: DiscoveredPeer)
        ensures
            p.device_name == addr_text,
            p.addr == addr,
            p.last_seen_ms == now_ms,
    {
        DiscoveredPeer { device_id: new_id(), device_name: addr_text, addr, last_seen_ms: now_ms }
    }
}

} // verus!
