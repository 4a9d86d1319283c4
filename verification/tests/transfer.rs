use landrop::connection::PeerConnection;
use landrop::fs::writer::FileWriter;
use landrop::protocol::messages::{
    ChunkAck, Done, FileAck, FileDecision, FileEntry, Manifest, ManifestAck, MessageKind, PairAccept,
    PairRequest, ProtocolError, TransferStats, WireMessage,
};
use landrop::security::trust_store::TrustStore;
use landrop::transfer::engine::{IncomingRoute, PairingEvent, TransferDirection, TransferEngine, TransferEventKind};
use landrop::transfer::receiver::{Incoming, Receiver};
use landrop::transfer::sender::{find_source_path, FilePlan, Sender, SourceKind, SourcePath, ACK_EVERY, CHUNK_SIZE};

fn entry(id: u128, p: &str, size: u64, is_dir: bool) -> FileEntry {
    FileEntry { file_id: id, relative_path: p.into(), size, is_dir }
}

fn manifest() -> Manifest {
    Manifest {
        session_id: 99,
        transfer_name: "photos".into(),
        files: vec![entry(1, "photos", 0, true), entry(2, "photos/a", 600_000, false), entry(3, "photos/b", 10, false)],
        total_bytes: 600_010,
    }
}

#[test]
fn plans_follow_the_receivers_answers() {
    let m = manifest();
    let acks = vec![
        FileAck { file_id: 1, decision: FileDecision::SkipAlreadyPresent },
        FileAck { file_id: 2, decision: FileDecision::RestartFile { resume_offset: 300 } },
        FileAck { file_id: 3, decision: FileDecision::SkipAlreadyPresent },
    ];
    let plans = Sender::plan_files(&m.files, &acks);
    assert_eq!(
        plans,
        vec![FilePlan::SkipDirectory, FilePlan::Transfer { resume_offset: 300 }, FilePlan::AlreadyPresent]
    );
    let short = Sender::plan_files(&m.files, &acks[..1].to_vec());
    assert_eq!(short.len(), 1);
    let send = FileAck { file_id: 2, decision: FileDecision::Send };
    assert_eq!(Sender::plan_file(&m.files[1], &send), FilePlan::Transfer { resume_offset: 0 });
}

#[test]
fn sender_chunks_offsets_and_acks() {
    let m = manifest();
    let mut s = Sender::new_session(&m);
    assert_eq!(s.files_total, 2);
    s.begin_file(2, 300);
    assert_eq!(s.bytes_sent, 300);
    let mut waits = Vec::new();
    for k in 0..5u32 {
        let (c, wait) = s.data_chunk(vec![1u8; 10]);
        assert_eq!(c.seq, k);
        assert_eq!(c.offset, 300 + k as u64 * CHUNK_SIZE);
        assert_eq!(c.file_id, 2);
        assert_eq!(c.session_id, 99);
        assert!(!c.eof);
        waits.push(wait);
    }
    assert_eq!(waits, vec![false, false, false, true, false]);
    assert_eq!(ACK_EVERY, 4);
    assert_eq!(s.bytes_sent, 350);
    assert!(s.awaits_final_ack());
    let eof = s.eof_chunk(600_000);
    assert!(eof.eof);
    assert!(eof.data.is_empty());
    assert_eq!(eof.seq, 5);
    assert_eq!(eof.offset, 600_000);
    s.finish_file();
    s.skip_present();
    let p = s.progress();
    assert_eq!((p.bytes_sent, p.total_bytes, p.files_done, p.files_total), (350, 600_010, 2, 2));
    let done = s.done_message(1234);
    assert_eq!(done.session_id, 99);
    assert_eq!(
        done.stats,
        TransferStats {
            total_bytes: 600_010,
            transferred_bytes: 350,
            elapsed_ms: 1234,
            files_total: 2,
            files_completed: 2,
            files_failed: 0
        }
    );
}

#[test]
fn no_final_ack_after_a_full_run() {
    let mut s = Sender::new_session(&manifest());
    s.begin_file(3, 0);
    for _ in 0..4 {
        s.data_chunk(vec![0u8; 1]);
    }
    assert!(!s.awaits_final_ack());
}

#[test]
fn sender_and_receiver_ack_the_same_chunks() {
    let m = manifest();
    let mut s = Sender::new_session(&m);
    let mut r = Receiver::new_session(&m);
    s.begin_file(2, 0);
    let mut written = 0u64;
    for _ in 0..9 {
        let (c, wait) = s.data_chunk(vec![7u8; 3]);
        written += 3;
        let ack = r.on_data(c.file_id, c.seq, c.data.len() as u64, written);
        assert_eq!(wait, ack.is_some());
        if let Some(a) = ack {
            assert_eq!(a, ChunkAck { session_id: 99, file_id: 2, seq: c.seq, committed_bytes: written });
        }
    }
    let eof = s.eof_chunk(27);
    let ack = r.on_eof(eof.file_id, eof.seq);
    assert_eq!(ack.committed_bytes, 27);
    assert_eq!(ack.seq, 9);
    assert_eq!(r.chunk_count, 0);
    assert_eq!(r.files_done, 1);
    let done = r.done_ack(5);
    assert!(done.success);
    assert!(done.failed_files.is_empty());
    assert_eq!(done.stats.transferred_bytes, 27);
    assert_eq!(done.stats.files_completed, 1);
    assert_eq!(r.progress().bytes_sent, 27);
}

#[test]
fn expected_replies() {
    let ack = ManifestAck { session_id: 1, files: vec![] };
    assert!(Sender::expect_manifest_ack(Some(WireMessage::ManifestAck(ack))).is_ok());
    let done = WireMessage::Done(Done {
        session_id: 1,
        stats: TransferStats { total_bytes: 0, transferred_bytes: 0, elapsed_ms: 0, files_total: 0, files_completed: 0, files_failed: 0 },
    });
    assert_eq!(
        Sender::expect_manifest_ack(Some(done.clone())).unwrap_err(),
        ProtocolError::Unexpected { expected: MessageKind::ManifestAck, got: MessageKind::Done }
    );
    assert_eq!(Sender::expect_chunk_ack(None).unwrap_err(), ProtocolError::Closed { expected: MessageKind::ChunkAck });
    assert_eq!(Receiver::expect_manifest(None).unwrap_err(), ProtocolError::Closed { expected: MessageKind::Manifest });
    assert_eq!(Receiver::expect_manifest(Some(WireMessage::Manifest(manifest()))).unwrap().session_id, 99);
    assert!(matches!(Receiver::expect_transfer_message(done), Ok(Incoming::Done(_))));
    assert_eq!(
        Receiver::expect_transfer_message(WireMessage::ManifestAck(ManifestAck { session_id: 1, files: vec![] })).unwrap_err(),
        ProtocolError::Unexpected { expected: MessageKind::Chunk, got: MessageKind::ManifestAck }
    );
}

#[test]
fn find_source_path_prefers_first_holder() {
    let paths = vec![
        SourcePath { path: "/home/u/notes.txt".into(), kind: SourceKind::File },
        SourcePath { path: "/home/u/photos".into(), kind: SourceKind::Dir },
        SourcePath { path: "/dev/null".into(), kind: SourceKind::Other },
    ];
    assert_eq!(find_source_path(&paths, "notes.txt", &|_p: &str| false).unwrap(), "/home/u/notes.txt");
    let found = find_source_path(&paths, "photos/a.jpg", &|p: &str| p == "/home/u/photos/a.jpg");
    assert_eq!(found.unwrap(), "/home/u/photos/a.jpg");
    assert!(find_source_path(&paths, "photos/b.jpg", &|_p: &str| false).is_none());
    assert!(find_source_path(&Vec::new(), "x", &|_p: &str| true).is_none());
}

#[test]
fn routing_incoming_connections() {
    let req = PairRequest { device_id: 1, session_id: 2, pin: "123456".into(), peer_fingerprint: "ff".into() };
    assert!(matches!(TransferEngine::route_incoming(WireMessage::PairRequest(req)), IncomingRoute::Pairing(_)));
    assert!(matches!(TransferEngine::route_incoming(WireMessage::Manifest(manifest())), IncomingRoute::Receive(_)));
    let other = WireMessage::ChunkAck(ChunkAck { session_id: 0, file_id: 0, seq: 0, committed_bytes: 0 });
    assert!(matches!(TransferEngine::route_incoming(other), IncomingRoute::Ignored(MessageKind::ChunkAck)));
}

#[test]
fn transfer_events() {
    match TransferEngine::receive_queued(&manifest()) {
        TransferEventKind::Queued { peer_id, peer_name, direction, files_total, total_bytes } => {
            assert_eq!((peer_id, peer_name.as_str(), direction, files_total, total_bytes), (0, "photos", TransferDirection::Receive, 2, 600_010));
        }
        _ => panic!("not queued"),
    }
    match TransferEngine::send_queued(5, "bob".into(), 3) {
        TransferEventKind::Queued { peer_id, peer_name, direction, files_total, total_bytes } => {
            assert_eq!((peer_id, peer_name.as_str(), direction, files_total, total_bytes), (5, "bob", TransferDirection::Send, 3, 0));
        }
        _ => panic!("not queued"),
    }
    assert!(matches!(TransferEngine::outcome_event(Ok(())), TransferEventKind::Completed));
    match TransferEngine::outcome_event(Err("io".into())) {
        TransferEventKind::Failed(m) => assert_eq!(m, "io"),
        _ => panic!("not failed"),
    }
}

#[test]
fn pairing_answers_and_trust() {
    assert!(TransferEngine::pairing_answer(Some(Some(true))));
    assert!(!TransferEngine::pairing_answer(Some(Some(false))));
    assert!(!TransferEngine::pairing_answer(Some(None)));
    assert!(!TransferEngine::pairing_answer(None));

    let req = PairRequest { device_id: 8, session_id: 2, pin: "123456".into(), peer_fingerprint: "fp8".into() };
    match TransferEngine::incoming_request_event(&req) {
        PairingEvent::IncomingRequest { peer_id, session_id, pin, peer_fingerprint } => {
            assert_eq!((peer_id, session_id, pin.as_str(), peer_fingerprint.as_str()), (8, 2, "123456", "fp8"));
        }
        _ => panic!("wrong event"),
    }
    let mut store = TrustStore::default();
    TransferEngine::settle_incoming_pairing(&mut store, &req, false);
    assert!(!store.contains(8));
    TransferEngine::settle_incoming_pairing(&mut store, &req, true);
    assert!(store.is_trusted(8, "fp8"));

    let refused = WireMessage::PairAccept(PairAccept { device_id: 9, session_id: 2, accepted: false, peer_fingerprint: "fp9".into() });
    assert!(!TransferEngine::settle_outgoing_pairing(&mut store, Some(refused)));
    assert!(!store.contains(9));
    assert!(!TransferEngine::settle_outgoing_pairing(&mut store, None));
    let accepted = TransferEngine::pair_answer(9, 2, true, "fp9".into());
    assert!(TransferEngine::settle_outgoing_pairing(&mut store, Some(accepted)));
    assert!(store.is_trusted(9, "fp9"));

    match TransferEngine::pair_request(1, 2, "654321".into(), "mine".into()) {
        WireMessage::PairRequest(r) => assert_eq!((r.device_id, r.session_id, r.pin.as_str(), r.peer_fingerprint.as_str()), (1, 2, "654321", "mine")),
        _ => panic!("wrong message"),
    }
    assert!(matches!(TransferEngine::resolved_event(2, true), PairingEvent::OutgoingResolved { session_id: 2, accepted: true }));
}

#[test]
fn resume_plan_matches_receiver_decision() {
    let file = entry(4, "big.bin", 1000, false);
    let cases = [
        (None, FilePlan::Transfer { resume_offset: 0 }),
        (Some(1000), FilePlan::AlreadyPresent),
        (Some(400), FilePlan::Transfer { resume_offset: 400 }),
        (Some(2000), FilePlan::Transfer { resume_offset: 0 }),
    ];
    for (existing, expected) in cases {
        let ack = FileAck { file_id: 4, decision: FileWriter::entry_decision(&file, existing) };
        assert_eq!(Sender::plan_file(&file, &ack), expected);
    }
    let mut s = Sender::new_session(&manifest());
    s.begin_file(4, 400);
    let (first, _) = s.data_chunk(vec![0u8; 600]);
    assert_eq!(first.offset, 400);
}

#[test]
fn hello_is_answered_with_caps_ack() {
    let hello = PeerConnection::hello(5, 77, "peer".into(), "linux".into(), "peerfp".into());
    let h = match TransferEngine::route_incoming(hello) {
        IncomingRoute::Handshake(h) => h,
        _ => panic!("Hello not routed to the handshake"),
    };
    let mut store = TrustStore::default();
    let answer = TransferEngine::answer_hello(&h, 1, "me".into(), "myfp".into(), &store);
    match &answer {
        WireMessage::CapsAck(c) => {
            assert_eq!((c.device_id, c.session_id, c.device_name.as_str(), c.cert_fingerprint.as_str()), (1, 77, "me", "myfp"));
            assert_eq!(c.accepted_version, 1);
            assert!(c.requires_pairing);
        }
        _ => panic!("not a CapsAck"),
    }
    let conn = PeerConnection::from_reply(Some(answer), Some("myfp".into())).unwrap();
    assert_eq!(conn.peer_id, 1);
    assert_eq!(conn.peer_fingerprint, "myfp");
    assert!(conn.requires_pairing);
    store.add_peer(5, "peerfp".into());
    match TransferEngine::answer_hello(&h, 1, "me".into(), "myfp".into(), &store) {
        WireMessage::CapsAck(c) => assert!(!c.requires_pairing),
        _ => panic!("not a CapsAck"),
    }
}

#[test]
fn full_run_reports_the_manifest() {
    let m = manifest();
    let acks = vec![
        FileAck { file_id: 1, decision: FileDecision::SkipAlreadyPresent },
        FileAck { file_id: 2, decision: FileDecision::RestartFile { resume_offset: 100_000 } },
        FileAck { file_id: 3, decision: FileDecision::SkipAlreadyPresent },
    ];
    let mut s = Sender::new_session(&m);
    for (entry, plan) in m.files.iter().zip(Sender::plan_files(&m.files, &acks)) {
        match plan {
            FilePlan::SkipDirectory => {}
            FilePlan::AlreadyPresent => s.skip_present(),
            FilePlan::Transfer { resume_offset } => {
                s.begin_file(entry.file_id, resume_offset);
                let mut left = entry.size - resume_offset;
                while left > 0 {
                    let n = left.min(CHUNK_SIZE);
                    s.data_chunk(vec![0u8; n as usize]);
                    left -= n;
                }
                s.finish_file();
            }
        }
    }
    let done = s.done_message(10);
    assert_eq!(done.session_id, 99);
    assert_eq!(done.stats.files_completed, 2);
    assert_eq!(done.stats.files_total, 2);
    assert_eq!(done.stats.transferred_bytes, 600_000);
    assert_eq!(done.stats.total_bytes, 600_010);
    assert_eq!(done.stats.files_failed, 0);
}
