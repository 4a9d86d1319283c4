use landrop::clock::{millis_as_u64, now_ms};
use landrop::net::{IpAddress, SocketAddress};
use landrop::state::app::AppState;
use landrop::state::peer::{Peer, PeerOs, PeerState};
use landrop::state::transfer::{Transfer, TransferDirection, TransferProgress, TransferStatus};

fn addr() -> SocketAddress {
    SocketAddress::new(IpAddress::V4(0xc0a8_0001), 7878)
}

#[test]
fn peer_os_from_name() {
    assert_eq!(PeerOs::from("Windows"), PeerOs::Windows);
    assert_eq!(PeerOs::from("macos"), PeerOs::MacOs);
    assert_eq!(PeerOs::from("Darwin"), PeerOs::MacOs);
    assert_eq!(PeerOs::from("LINUX"), PeerOs::Linux);
    assert_eq!(PeerOs::from("plan9"), PeerOs::Unknown);
}

#[test]
fn peer_expiry() {
    let mut p = Peer::new(1, "a".into(), PeerOs::Linux, addr(), "fp".into());
    assert_eq!(p.state, PeerState::Discovered);
    p.touch_at(1_000);
    assert_eq!(p.last_seen_ms, 1_000);
    assert!(!p.is_expired_at(9_000, 8_000));
    assert!(p.is_expired_at(9_001, 8_000));
    assert!(!p.is_expired_at(500, 8_000));
    p.touch();
    assert!(!p.is_expired(60_000));
}

#[test]
fn clock_readings() {
    assert_eq!(millis_as_u64(None), 0);
    assert_eq!(millis_as_u64(Some(5)), 5);
    assert_eq!(millis_as_u64(Some((1u128 << 64) + 3)), 3);
    assert!(now_ms() > 1_600_000_000_000);
}

#[test]
fn transfers_move_to_history() {
    let mut state = AppState::new(1, "me".into(), "/downloads".into());
    let t = Transfer::new_send(2, "peer".into(), vec!["/a".into()]);
    assert_eq!(t.status, TransferStatus::Queued);
    assert_eq!(t.direction, TransferDirection::Send);
    assert_eq!(t.progress, TransferProgress::zero());
    let id = state.add_transfer(t);
    assert_eq!(state.get_transfers().len(), 1);
    state.update_transfer(id, |mut t| {
        t.progress.bytes_sent = 10;
        t
    });
    assert_eq!(state.get_transfers()[0].progress.bytes_sent, 10);
    state.complete_transfer(id);
    assert!(state.get_transfers().is_empty());
    let h = state.get_history();
    assert_eq!(h.len(), 1);
    assert_eq!(h[0].id, id);
    state.complete_transfer(id);
    assert_eq!(state.get_history().len(), 1);
}

#[test]
fn peers_and_receive_dir() {
    let mut state = AppState::new(1, "me".into(), "/downloads".into());
    state.upsert_peer(Peer::new(3, "x".into(), PeerOs::MacOs, addr(), "f".into()));
    state.upsert_peer(Peer::new(3, "y".into(), PeerOs::MacOs, addr(), "f".into()));
    let peers = state.get_peers();
    assert_eq!(peers.len(), 1);
    assert_eq!(peers[0].name, "y");
    state.remove_peer(3);
    assert!(state.get_peers().is_empty());
    assert_eq!(state.receive_dir(), "/downloads");
    state.set_receive_dir("/tmp/in".into());
    assert_eq!(state.receive_dir(), "/tmp/in");
}

#[test]
fn finishing_a_transfer() {
    let mut t = Transfer::new_receive(4, "p".into());
    assert_eq!(t.status, TransferStatus::Connecting);
    t.finish_at(false, Some("boom".into()), 77);
    assert_eq!(t.status, TransferStatus::Failed("boom".into()));
    assert_eq!(t.finished_at_ms, Some(77));
    t.finish(true, None);
    assert_eq!(t.status, TransferStatus::Completed);
    t.finish_at(false, None, 5);
    assert_eq!(t.status, TransferStatus::Failed(String::new()));
}
