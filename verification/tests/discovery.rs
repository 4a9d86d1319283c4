use landrop::connection::PeerConnection;
use landrop::discovery::broadcast::{BroadcastDiscovery, BroadcastMessage, BroadcastPeer, HERE_VERSION};
use landrop::discovery::manager::{find_peer, peer_for_text, DiscoveredPeer, DiscoveryEvent, DiscoveryManager, PEER_TTL_MS};
use landrop::discovery::mdns::{MdnsDiscovery, MdnsEvent, MdnsPeer, SERVICE_TYPE};
use landrop::ids::{id_text, parse_id};
use landrop::dto::{direction_label, peer_name_for, AppInfoDto, PairingRequestDto, PeerDto};
use landrop::net::{IpAddress, SocketAddress};
use landrop::platform::{FirewallStatus, PlatformInfo};
use landrop::protocol::messages::{CapsAck, MessageKind, ProtocolError, WireMessage};
use landrop::text::decimal_string;
use landrop::transfer::engine::TransferDirection;

const ID_A: u128 = 0x0123_4567_89ab_cdef_0123_4567_89ab_cdef;

fn bpeer(id: u128, name: &str) -> BroadcastPeer {
    BroadcastPeer { device_id: id, device_name: name.into(), addr: IpAddress::V4(0x0a00_0002), tcp_port: 7878 }
}

#[test]
fn broadcast_discover_is_registered_and_answered() {
    let me = BroadcastDiscovery::new(1, "me".into(), 7878);
    let msg = BroadcastMessage::Discover { device_id: 2, device_name: "other".into(), tcp_port: 9000 };
    let heard = me.hear(msg, IpAddress::V4(0x0a00_0003));
    assert_eq!(heard.peer.unwrap(), BroadcastPeer { device_id: 2, device_name: "other".into(), addr: IpAddress::V4(0x0a00_0003), tcp_port: 9000 });
    assert_eq!(
        heard.reply.unwrap(),
        BroadcastMessage::Here { device_id: 1, device_name: "me".into(), tcp_port: 7878, version: HERE_VERSION }
    );
}

#[test]
fn broadcast_here_is_registered_own_messages_ignored() {
    let me = BroadcastDiscovery::new(1, "me".into(), 7878);
    let here = BroadcastMessage::Here { device_id: 2, device_name: "o".into(), tcp_port: 1, version: 1 };
    let heard = me.hear(here, IpAddress::V6(1));
    assert!(heard.reply.is_none());
    assert_eq!(heard.peer.unwrap().addr, IpAddress::V6(1));
    let own = me.announcement();
    let heard = me.hear(own, IpAddress::V4(1));
    assert!(heard.peer.is_none() && heard.reply.is_none());
    assert_eq!(me.announcement(), BroadcastMessage::Discover { device_id: 1, device_name: "me".into(), tcp_port: 7878 });
}

#[test]
fn sightings_add_then_update() {
    let mut m = DiscoveryManager::new(1, "me".into());
    assert_eq!(m.device_id(), 1);
    assert_eq!(m.device_name(), "me");
    match m.record_sighting(bpeer(2, "a"), 1_000) {
        DiscoveryEvent::PeerAdded(p) => {
            assert_eq!(p.addr, SocketAddress::new(IpAddress::V4(0x0a00_0002), 7878));
            assert_eq!(p.last_seen_ms, 1_000);
        }
        other => panic!("unexpected {:?}", other),
    }
    match m.record_sighting(bpeer(2, "renamed"), 2_000) {
        DiscoveryEvent::PeerUpdated(p) => assert_eq!(p.device_name, "renamed"),
        other => panic!("unexpected {:?}", other),
    }
    let peers = m.get_peers();
    assert_eq!(peers.len(), 1);
    assert_eq!(peers[0].last_seen_ms, 2_000);
}

#[test]
fn stale_peers_are_evicted() {
    let mut m = DiscoveryManager::new(1, "me".into());
    m.record_sighting(bpeer(2, "a"), 1_000);
    m.record_sighting(bpeer(3, "b"), 5_000);
    assert!(m.evict_expired(1_000 + PEER_TTL_MS).is_empty());
    assert_eq!(m.evict_expired(1_000 + PEER_TTL_MS + 1), vec![2]);
    assert_eq!(m.get_peers().len(), 1);
    assert_eq!(m.get_peers()[0].device_id, 3);
    assert_eq!(m.evict_expired(4_000), vec![3]);
    assert!(m.get_peers().is_empty());
}

#[test]
fn find_peer_and_names() {
    let peers = vec![
        DiscoveredPeer { device_id: 5, device_name: "five".into(), addr: SocketAddress::new(IpAddress::V4(1), 1), last_seen_ms: 0 },
        DiscoveredPeer { device_id: 6, device_name: "six".into(), addr: SocketAddress::new(IpAddress::V4(2), 2), last_seen_ms: 0 },
    ];
    assert_eq!(find_peer(&peers, 6).unwrap().device_name, "six");
    assert!(find_peer(&peers, 7).is_none());
    assert_eq!(peer_name_for(&peers, 5), "five");
    assert_eq!(peer_name_for(&peers, ID_A), "01234567-89ab-cdef-0123-456789abcdef");
    let probed = DiscoveryManager::probed_peer(SocketAddress::new(IpAddress::V4(3), 7878), "0.0.0.3:7878".into(), 9);
    assert_eq!(probed.device_name, "0.0.0.3:7878");
    assert_eq!(probed.last_seen_ms, 9);
}

#[test]
fn uuid_text_and_parse() {
    assert_eq!(AppInfoDto::new(ID_A, "n".into(), "f".into(), "d".into()).device_id, "01234567-89ab-cdef-0123-456789abcdef");
    let bad = MdnsDiscovery::peer_from_resolved(1, Some("not a uuid".into()), None, "h".into(), Some(IpAddress::V4(5)), 1);
    assert!(bad.is_none());
}

#[test]
fn mdns_names_and_properties() {
    assert_eq!(SERVICE_TYPE, "_lanfile._tcp.local.");
    assert_eq!(MdnsDiscovery::instance_name(ID_A), "landrop-01234567-89ab-cdef-0123-456789abcdef");
    assert_eq!(MdnsDiscovery::new(ID_A).service_name, "landrop-01234567-89ab-cdef-0123-456789abcdef._lanfile._tcp.local.");
    assert_eq!(MdnsDiscovery::host_name("box"), "box.local.");
    let props = MdnsDiscovery::properties(ID_A, "Box");
    assert_eq!(props[0], ("device_id".to_string(), "01234567-89ab-cdef-0123-456789abcdef".to_string()));
    assert_eq!(props[1], ("name".to_string(), "Box".to_string()));
    assert_eq!(props[2], ("version".to_string(), "1".to_string()));
}

#[test]
fn mdns_resolved_services() {
    let id_text = Some("01234567-89ab-cdef-0123-456789abcdef".to_string());
    let p = MdnsDiscovery::peer_from_resolved(1, id_text.clone(), None, "host.local.".into(), Some(IpAddress::V4(5)), 7878).unwrap();
    assert_eq!(p.device_id, ID_A);
    assert_eq!(p.device_name, "host.local.");
    let p = MdnsDiscovery::peer_from_resolved(1, id_text.clone(), Some("Box".into()), "h".into(), Some(IpAddress::V4(5)), 1).unwrap();
    assert_eq!(p.device_name, "Box");
    assert!(MdnsDiscovery::peer_from_resolved(ID_A, id_text.clone(), None, "h".into(), Some(IpAddress::V4(5)), 1).is_none());
    assert!(MdnsDiscovery::peer_from_resolved(1, id_text, None, "h".into(), None, 1).is_none());
    assert!(MdnsDiscovery::peer_from_resolved(1, None, None, "h".into(), Some(IpAddress::V4(5)), 1).is_none());
    assert!(matches!(MdnsDiscovery::removed_event("x".into()), MdnsEvent::Removed(n) if n == "x"));
}

#[test]
fn decimal_text_examples() {
    assert_eq!(decimal_string(0), "0");
    assert_eq!(decimal_string(7878), "7878");
    assert_eq!(decimal_string(u64::MAX), "18446744073709551615");
}

#[test]
fn dtos() {
    let p = DiscoveredPeer { device_id: ID_A, device_name: "Box".into(), addr: SocketAddress::new(IpAddress::V4(1), 1), last_seen_ms: 0 };
    let d = PeerDto::from_discovered(&p, "0.0.0.1:1".into(), true);
    assert_eq!(d.id, "01234567-89ab-cdef-0123-456789abcdef");
    assert_eq!((d.name.as_str(), d.os.as_str(), d.addr.as_str(), d.fingerprint.as_str(), d.state.as_str()), ("Box", "unknown", "0.0.0.1:1", "", "Paired"));
    assert_eq!(PeerDto::from_discovered(&p, "a".into(), false).state, "Discovered");
    let info = AppInfoDto::new(ID_A, "me".into(), "fp".into(), "/dl".into());
    assert_eq!(info.device_id, "01234567-89ab-cdef-0123-456789abcdef");
    let req = PairingRequestDto::for_request(&vec![p], ID_A, "ff".into(), "123456".into());
    assert_eq!(req.peer_name, "Box");
    assert_eq!(direction_label(TransferDirection::Send), "Send");
    assert_eq!(direction_label(TransferDirection::Receive), "Receive");
}

#[test]
fn platform_and_firewall() {
    assert_eq!(FirewallStatus::from_probe(Some(true)), FirewallStatus::Open);
    assert_eq!(FirewallStatus::from_probe(Some(false)), FirewallStatus::BlockingInbound);
    assert_eq!(FirewallStatus::from_probe(None), FirewallStatus::Unknown);
    assert_eq!(PlatformInfo::new("linux".into(), None).hostname, "unknown");
    assert_eq!(PlatformInfo::new("linux".into(), Some("box".into())).hostname, "box");
}

#[test]
fn session_opening() {
    match PeerConnection::hello(1, 2, "me".into(), "linux".into(), "fp".into()) {
        WireMessage::Hello(h) => {
            assert_eq!(h.capabilities.protocol_version, 1);
            assert_eq!(h.os, "linux");
        }
        _ => panic!("not hello"),
    }
    let caps = CapsAck { device_id: 4, session_id: 2, device_name: "peer".into(), cert_fingerprint: "x".into(), accepted_version: 1, requires_pairing: true };
    let c = PeerConnection::from_reply(Some(WireMessage::CapsAck(caps)), None).unwrap();
    assert_eq!(c, PeerConnection { peer_id: 4, peer_name: "peer".into(), peer_fingerprint: String::new(), requires_pairing: true });
    assert_eq!(PeerConnection::from_reply(None, Some("a".into())).unwrap_err(), ProtocolError::Closed { expected: MessageKind::CapsAck });
}

#[test]
fn discovery_is_mutual() {
    let a = BroadcastDiscovery::new(10, "a".into(), 7001);
    let b = BroadcastDiscovery::new(20, "b".into(), 7002);
    let heard_by_b = b.hear(a.announcement(), IpAddress::V4(1));
    assert_eq!(heard_by_b.peer.unwrap(), BroadcastPeer { device_id: 10, device_name: "a".into(), addr: IpAddress::V4(1), tcp_port: 7001 });
    let heard_by_a = a.hear(heard_by_b.reply.unwrap(), IpAddress::V4(2));
    assert_eq!(heard_by_a.peer.unwrap(), BroadcastPeer { device_id: 20, device_name: "b".into(), addr: IpAddress::V4(2), tcp_port: 7002 });
    assert!(heard_by_a.reply.is_none());
}

#[test]
fn mdns_sightings_join_the_table() {
    let mut m = DiscoveryManager::new(1, "me".into());
    let p = MdnsPeer { device_id: 4, device_name: "box".into(), addr: IpAddress::V4(9), port: 7878 };
    match m.record_mdns_sighting(p.clone(), 100) {
        DiscoveryEvent::PeerAdded(d) => {
            assert_eq!(d.addr, SocketAddress::new(IpAddress::V4(9), 7878));
            assert_eq!(d.last_seen_ms, 100);
        }
        other => panic!("unexpected {:?}", other),
    }
    assert!(matches!(m.record_sighting(bpeer(4, "box"), 200), DiscoveryEvent::PeerUpdated(_)));
    assert!(matches!(m.record_mdns_sighting(p, 300), DiscoveryEvent::PeerUpdated(_)));
    assert_eq!(m.get_peers().len(), 1);
    assert_eq!(m.get_peers()[0].last_seen_ms, 300);
}

#[test]
fn ids_from_and_to_text() {
    assert_eq!(parse_id("01234567-89ab-cdef-0123-456789abcdef"), Some(ID_A));
    assert_eq!(parse_id("not an id"), None);
    assert_eq!(id_text(ID_A), "01234567-89ab-cdef-0123-456789abcdef");
    assert_eq!(parse_id(&id_text(42)), Some(42));
}

#[test]
fn peer_lookup_by_text() {
    let peers = vec![
        DiscoveredPeer { device_id: ID_A, device_name: "a".into(), addr: SocketAddress::new(IpAddress::V4(1), 1), last_seen_ms: 0 },
        DiscoveredPeer { device_id: 6, device_name: "six".into(), addr: SocketAddress::new(IpAddress::V4(2), 2), last_seen_ms: 0 },
    ];
    assert_eq!(peer_for_text(&peers, "01234567-89ab-cdef-0123-456789abcdef").unwrap().device_name, "a");
    assert_eq!(peer_for_text(&peers, &id_text(6)).unwrap().device_name, "six");
    assert!(peer_for_text(&peers, &id_text(7)).is_none());
    assert!(peer_for_text(&peers, "six").is_none());
}
