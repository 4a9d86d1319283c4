use landrop::fs::manifest::{ManifestBuilder, ManifestError, SourceItem, WalkedEntry};
use landrop::fs::writer::{FileWriter, WriteLedger, WriterError};
use landrop::protocol::messages::{FileDecision, FileEntry, Manifest};

fn walked(p: &str, is_dir: bool, size: u64) -> WalkedEntry {
    WalkedEntry { rel_path: p.into(), is_dir, size }
}

#[test]
fn normalize_path_rewrites_backslashes() {
    assert_eq!(ManifestBuilder::normalize_path("dir\\sub\\f.txt").unwrap(), "dir/sub/f.txt");
    assert_eq!(ManifestBuilder::normalize_path("plain").unwrap(), "plain");
}

#[test]
fn normalize_path_refuses_traversal() {
    match ManifestBuilder::normalize_path("a/../b") {
        Err(ManifestError::PathTraversal(p)) => assert_eq!(p, "a/../b"),
        other => panic!("unexpected {:?}", other),
    }
}

#[test]
fn build_manifest_of_files_and_directories() {
    let sources = vec![
        SourceItem::File { name: "a.txt".into(), size: 10 },
        SourceItem::Dir {
            entries: vec![walked("photos", true, 4096), walked("photos\\x.jpg", false, 100), walked("photos/y.jpg", false, 5)],
        },
        SourceItem::Other,
    ];
    let paths: Vec<String> = vec!["/home/u/a.txt".into(), "/home/u/photos".into(), "/dev/null".into()];
    let m = ManifestBuilder::build(&paths, &sources).unwrap();
    assert_eq!(m.transfer_name, "a.txt");
    assert_eq!(m.total_bytes, 115);
    let paths: Vec<&str> = m.files.iter().map(|f| f.relative_path.as_str()).collect();
    assert_eq!(paths, vec!["a.txt", "photos", "photos/x.jpg", "photos/y.jpg"]);
    assert!(m.files[1].is_dir);
    assert_eq!(m.files[1].size, 0);
    assert_eq!(m.files[2].size, 100);
    assert_eq!(m.files.iter().map(|f| f.size).sum::<u64>(), m.total_bytes);
}

#[test]
fn build_manifest_default_name_and_fresh_ids() {
    let sources = vec![
        SourceItem::File { name: "a".into(), size: 1 },
        SourceItem::File { name: "b".into(), size: 2 },
    ];
    let m = ManifestBuilder::build(&vec!["/a".into(), "/b".into()], &sources).unwrap();
    assert_eq!(m.transfer_name, "a");
    assert_eq!(ManifestBuilder::transfer_name(&Vec::new()), "transfer");
    assert_eq!(ManifestBuilder::transfer_name(&vec!["/".into()]), "transfer");
    assert_ne!(m.files[0].file_id, m.files[1].file_id);
    assert_ne!(m.session_id, m.files[0].file_id);
}

#[test]
fn build_manifest_refuses_traversal() {
    let sources = vec![SourceItem::Dir { entries: vec![walked("d", true, 0), walked("d/../../etc", false, 1)] }];
    match ManifestBuilder::build(&vec!["/d".into()], &sources) {
        Err(ManifestError::PathTraversal(p)) => assert_eq!(p, "d/../../etc"),
        other => panic!("unexpected {:?}", other.map(|m| m.files.len())),
    }
}

#[test]
fn destination_joins_receive_dir() {
    assert_eq!(FileWriter::destination("/recv", "a/b.txt"), "/recv/a/b.txt");
    assert_eq!(FileWriter::destination("/recv", "/abs"), "/abs");
}

#[test]
fn validate_dest_cases() {
    assert!(FileWriter::validate_dest("/recv", "/recv/a.txt").is_ok());
    assert!(FileWriter::validate_dest("/recv", "a.txt").is_ok());
    match FileWriter::validate_dest("/recv", "/recv/../etc/passwd") {
        Err(WriterError::PathTraversal(p)) => assert_eq!(p, "/recv/../etc/passwd"),
        other => panic!("unexpected {:?}", other),
    }
    match FileWriter::validate_dest("/recv", "/etc/passwd") {
        Err(WriterError::EscapesReceiveDir(p)) => assert_eq!(p, "/etc/passwd"),
        other => panic!("unexpected {:?}", other),
    }
}

#[test]
fn decisions_by_existing_size() {
    assert_eq!(FileWriter::decide(100, None), FileDecision::Send);
    assert_eq!(FileWriter::decide(100, Some(100)), FileDecision::SkipAlreadyPresent);
    assert_eq!(FileWriter::decide(100, Some(40)), FileDecision::RestartFile { resume_offset: 40 });
    assert_eq!(FileWriter::decide(100, Some(150)), FileDecision::Send);
    let dir = FileEntry { file_id: 1, relative_path: "d".into(), size: 0, is_dir: true };
    assert_eq!(FileWriter::entry_decision(&dir, None), FileDecision::SkipAlreadyPresent);
}

fn manifest(paths: &[(&str, u64, bool)]) -> Manifest {
    Manifest {
        session_id: 77,
        transfer_name: "t".into(),
        files: paths
            .iter()
            .enumerate()
            .map(|(i, (p, s, d))| FileEntry { file_id: i as u128 + 1, relative_path: (*p).into(), size: *s, is_dir: *d })
            .collect(),
        total_bytes: paths.iter().map(|(_, s, _)| *s).sum(),
    }
}

#[test]
fn plan_manifest_answers_each_entry() {
    let m = manifest(&[("d", 0, true), ("d/a", 10, false), ("d/b", 20, false), ("c", 5, false)]);
    let ack = FileWriter::plan_manifest("/recv", &m, &vec![None, Some(10), Some(7), None]).unwrap();
    assert_eq!(ack.session_id, 77);
    let decisions: Vec<FileDecision> = ack.files.iter().map(|a| a.decision).collect();
    assert_eq!(
        decisions,
        vec![
            FileDecision::SkipAlreadyPresent,
            FileDecision::SkipAlreadyPresent,
            FileDecision::RestartFile { resume_offset: 7 },
            FileDecision::Send
        ]
    );
    assert_eq!(ack.files[3].file_id, 4);
}

#[test]
fn plan_manifest_stops_at_traversal() {
    let m = manifest(&[("ok", 1, false), ("../evil", 1, false)]);
    match FileWriter::plan_manifest("/recv", &m, &vec![None, None]) {
        Err(WriterError::PathTraversal(p)) => assert_eq!(p, "/recv/../evil"),
        other => panic!("unexpected {:?}", other.map(|a| a.files.len())),
    }
}

#[test]
fn ledger_counts_written_bytes() {
    let mut l = WriteLedger::new();
    l.open_file(5);
    assert_eq!(l.record_write(5, 10).unwrap(), 10);
    assert_eq!(l.record_write(5, 6).unwrap(), 16);
    assert_eq!(l.written(5), Some(16));
    match l.record_write(6, 1) {
        Err(WriterError::NoOpenFile(id)) => assert_eq!(id, 6),
        other => panic!("unexpected {:?}", other),
    }
    l.open_file(6);
    let mut open = l.open_files();
    open.sort();
    assert_eq!(open, vec![5, 6]);
    assert!(l.close_file(5));
    assert!(!l.close_file(5));
    assert_eq!(l.written(5), None);
    assert_eq!(l.open_files(), vec![6]);
}
