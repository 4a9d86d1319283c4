//! The sending side of a transfer: what to do with each manifest entry given the
//! receiver's answer, where an entry's bytes come from, and the chunks, counters and
//! acknowledgements of a sending session.
use vstd::prelude::*;

use crate::fs::paths::{file_name_of, joined_path, parent_of, path_file_name, path_join, path_parent};
use crate::fs::writer::entry_decision_for;
use crate::protocol::messages::{
    file_count, count_files, reply_error, reply_mismatch, Chunk, ChunkAck, Done, FileAck,
    FileDecision, FileEntry, Manifest, ManifestAck, MessageKind, ProtocolError, TransferStats,
    WireMessage,
};
use crate::state::transfer::TransferProgress;
use crate::text::str_eq;

verus! {

/// The most bytes one chunk carries (256 KiB).
pub const CHUNK_SIZE: u64 = 262144;

/// The sender waits for an acknowledgement after this many chunks of a file.
pub const ACK_EVERY: u32 = 4;

/// What a path the user picked turned out to be on disk.
#[derive(Debug, Clone, Copy, PartialEq, Eq)]
pub enum SourceKind {
    File,
    Dir,
    Other,
}

/// A path the user picked, with what it is on disk.
#[derive(Debug, Clone)]
pub struct SourcePath {
    pub path: String,
    pub kind: SourceKind,
}

/// Where a directory source would hold an entry: the entry's relative path joined to
/// the directory's parent (or to the directory itself when it has no parent).
pub open spec fn dir_candidate(dir: Seq<char>, rel: Seq<char>) -> Seq<char> {
    joined_path(
        match parent_of(dir) {
            Some(p) => p,
            None => dir,
        },
        rel,
    )
}

/// A file source offers itself for an entry when its file name is the entry's path.
pub open spec fn file_offers(s: SourcePath, rel: Seq<char>) -> bool {
    s.kind == SourceKind::File && file_name_of(s.path@) == Some(rel)
}

/// Source `s` was looked at and does not hold the entry: a file of another name,
/// a directory where `present` said no for the candidate path, or anything else.
pub open spec fn source_declines<F: Fn(&str) -> bool>(present: F, s: SourcePath, rel: Seq<char>) -> bool {
    match s.kind {
        SourceKind::File => file_name_of(s.path@) != Some(rel),
        SourceKind::Dir => exists|c: &str|
            c@ == dir_candidate(s.path@, rel) && #[trigger] present.ensures((c,), false),
        SourceKind::Other => true,
    }
}

/// Source `s` holds the entry at `found`: a file of that name (`found` is the file's
/// path), or a directory where `present` said yes for the candidate path `found`.
pub open spec fn source_offers<F: Fn(&str) -> bool>(
    present: F,
    s: SourcePath,
    rel: Seq<char>,
    found: Seq<char>,
) -> bool {
    match s.kind {
        SourceKind::File => file_name_of(s.path@) == Some(rel) && found == s.path@,
        SourceKind::Dir => found == dir_candidate(s.path@, rel) && exists|c: &str|
            c@ == found && #[trigger] present.ensures((c,), true),
        SourceKind::Other => false,
    }
}

/// What to do with one manifest entry, given the receiver's answer for it.
#[derive(Debug, Clone, Copy, PartialEq, Eq)]
pub enum FilePlan {
    /// A directory: nothing to send, and it does not count as a file.
    SkipDirectory,
    /// The receiver has the file already: nothing to send, and it counts as done.
    AlreadyPresent,
    /// Send the file from byte `resume_offset` on.
    Transfer { resume_offset: u64 },
}

/// The plan for an entry: directories are skipped, files the receiver has are done,
/// others are sent from the offset the receiver resumes at (0 unless it resumes).
pub open spec fn plan_of(entry: FileEntry, ack: FileAck) -> FilePlan {
    if entry.is_dir {
        FilePlan::SkipDirectory
    } else {
        match ack.decision {
            FileDecision::SkipAlreadyPresent => FilePlan::AlreadyPresent,
            FileDecision::RestartFile { resume_offset } => FilePlan::Transfer { resume_offset },
            FileDecision::Send => FilePlan::Transfer { resume_offset: 0 },
        }
    }
}

/// Sender and receiver agree on what a file needs: for a file the receiver already
/// holds `existing` bytes of, the sender skips it when that is the whole file,
/// resumes at exactly that many bytes when it is a shorter prefix, and sends it
/// whole otherwise; directories are never sent.
pub proof fn lemma_resume_where_receiver_stopped(entry: FileEntry, existing: Option<u64>)
    ensures
        plan_of(entry, FileAck { file_id: entry.file_id, decision: entry_decision_for(entry, existing) })
            == if entry.is_dir {
            FilePlan::SkipDirectory
        } else {
            match existing {
                Some(have) => if have == entry.size {
                    FilePlan::AlreadyPresent
                } else if have < entry.size {
                    FilePlan::Transfer { resume_offset: have }
                } else {
                    FilePlan::Transfer { resume_offset: 0 }
                },
                None => FilePlan::Transfer { resume_offset: 0 },
            }
        },
{
}

/// The sending side of a transfer.
pub struct Sender;

/// A fresh session sending `m`: nothing sent, no file done, and as many files to do
/// as the manifest has file entries (counted in 32 bits).
pub open spec fn session_for(m: Manifest) -> SenderSession {
    SenderSession {
        session_id: m.session_id,
        total_bytes: m.total_bytes,
        files_total: file_count(m.files@) as u32,
        bytes_sent: 0,
        files_done: 0,
        file_id: 0,
        resume_offset: 0,
        seq: 0,
        chunks_since_ack: 0,
    }
}

/// The total of a list of chunk lengths.
pub open spec fn sum_lens(lens: Seq<nat>) -> nat
    decreases lens.len(),
{
    if lens.len() == 0 {
        0
    } else {
        sum_lens(lens.drop_last()) + lens.last()
    }
}

/// The session once it sent data chunks of the lengths `lens`, in order.
pub open spec fn after_chunks(s: SenderSession, lens: Seq<nat>) -> SenderSession
    decreases lens.len(),
{
    if lens.len() == 0 {
        s
    } else {
        after_chunks(s, lens.drop_last()).chunk_sent(lens.last())
    }
}

/// The session once it dealt with one manifest entry as planned: a directory leaves
/// it as it is, a file present at the receiver counts as done, and a file sent from
/// its resume offset in chunks of the lengths `lens` counts its bytes and as done.
pub open spec fn after_entry(s: SenderSession, entry: FileEntry, plan: FilePlan, lens: Seq<nat>) -> SenderSession {
    match plan {
        FilePlan::SkipDirectory => s,
        FilePlan::AlreadyPresent => s.file_done(),
        FilePlan::Transfer { resume_offset } => after_chunks(s.began(entry.file_id, resume_offset), lens).file_done(),
    }
}

/// The session once it dealt with the first `k` entries of `files`, each as
/// `plans` says, sending the chunk lengths `lens` of each.
pub open spec fn after_entries(
    s: SenderSession,
    files: Seq<FileEntry>,
    plans: Seq<FilePlan>,
    lens: Seq<Seq<nat>>,
    k: nat,
) -> SenderSession
    decreases k,
{
    if k == 0 {
        s
    } else {
        after_entry(
            after_entries(s, files, plans, lens, (k - 1) as nat),
            files[k - 1],
            plans[k - 1],
            lens[k - 1],
        )
    }
}

/// The file entries among the first `k` of `files`.
pub open spec fn files_among(files: Seq<FileEntry>, k: nat) -> nat
    decreases k,
{
    if k == 0 {
        0
    } else {
        files_among(files, (k - 1) as nat) + if files[k - 1].is_dir {
            0nat
        } else {
            1nat
        }
    }
}

/// The sizes of the files among the first `k` entries that are planned to be sent.
pub open spec fn planned_bytes(files: Seq<FileEntry>, plans: Seq<FilePlan>, k: nat) -> nat
    decreases k,
{
    if k == 0 {
        0
    } else {
        planned_bytes(files, plans, (k - 1) as nat) + if plans[k - 1] is Transfer {
            files[k - 1].size as nat
        } else {
            0nat
        }
    }
}

/// Each entry planned to be sent is sent whole: from its resume offset to its end.
pub open spec fn sent_whole(files: Seq<FileEntry>, plans: Seq<FilePlan>, lens: Seq<Seq<nat>>, k: nat) -> bool {
    forall|i: int|
        0 <= i < k ==> (#[trigger] plans[i] matches FilePlan::Transfer { resume_offset }
            ==> resume_offset + sum_lens(lens[i]) == files[i].size)
}

/// Directories, and only directories, are skipped.
pub open spec fn dirs_skipped(files: Seq<FileEntry>, plans: Seq<FilePlan>, k: nat) -> bool {
    forall|i: int| 0 <= i < k ==> ((#[trigger] plans[i] is SkipDirectory) <==> files[i].is_dir)
}

proof fn lemma_after_chunks(s: SenderSession, lens: Seq<nat>)
    requires
        s.bytes_sent + sum_lens(lens) <= u64::MAX,
    ensures
        after_chunks(s, lens).bytes_sent == s.bytes_sent + sum_lens(lens),
        after_chunks(s, lens).files_done == s.files_done,
        after_chunks(s, lens).session_id == s.session_id,
        after_chunks(s, lens).total_bytes == s.total_bytes,
        after_chunks(s, lens).files_total == s.files_total,
    decreases lens.len(),
{
    if lens.len() > 0 {
        lemma_after_chunks(s, lens.drop_last());
    }
}

proof fn lemma_files_among_prefix(files: Seq<FileEntry>, k: nat)
    requires
        k <= files.len(),
    ensures
        files_among(files, k) == file_count(files.take(k as int)),
    decreases k,
{
    if k > 0 {
        lemma_files_among_prefix(files, (k - 1) as nat);
        assert(files.take(k as int).drop_last() =~= files.take(k - 1));
    }
}

proof fn lemma_after_entries(
    s: SenderSession,
    files: Seq<FileEntry>,
    plans: Seq<FilePlan>,
    lens: Seq<Seq<nat>>,
    k: nat,
)
    requires
        k <= files.len(),
        k <= plans.len(),
        k <= lens.len(),
        sent_whole(files, plans, lens, k),
        dirs_skipped(files, plans, k),
        s.bytes_sent + planned_bytes(files, plans, k) <= u64::MAX,
        s.files_done + files_among(files, k) <= u32::MAX,
    ensures
        after_entries(s, files, plans, lens, k).bytes_sent == s.bytes_sent + planned_bytes(files, plans, k),
        after_entries(s, files, plans, lens, k).files_done == s.files_done + files_among(files, k),
        after_entries(s, files, plans, lens, k).session_id == s.session_id,
        after_entries(s, files, plans, lens, k).total_bytes == s.total_bytes,
        after_entries(s, files, plans, lens, k).files_total == s.files_total,
    decreases k,
{
    if k > 0 {
        let j = k - 1;
        assert(plans[j] matches FilePlan::Transfer { resume_offset } ==> resume_offset + sum_lens(lens[j])
            == files[j].size);
        assert((plans[j] is SkipDirectory) <==> files[j].is_dir);
        lemma_after_entries(s, files, plans, lens, (k - 1) as nat);
        let prev = after_entries(s, files, plans, lens, (k - 1) as nat);
        match plans[j] {
            FilePlan::Transfer { resume_offset } => {
                lemma_after_chunks(prev.began(files[j].file_id, resume_offset), lens[j]);
            },
            _ => {},
        }
    }
}

/// A run that sends every planned file whole reports the manifest in full: once the
/// sender dealt with every entry of `m` as the receiver's answers `acks` decide,
/// sending the chunk lengths `lens` of each, every file entry counts as done (as
/// many as the session has to do), the bytes it counts as sent are the sizes of the
/// files it sent, and the session and total size are the manifest's, so its `Done`
/// carries them with no file failed.
pub proof fn lemma_run_reports_manifest(m: Manifest, acks: Seq<FileAck>, lens: Seq<Seq<nat>>)
    requires
        acks.len() == m.files@.len(),
        lens.len() == m.files@.len(),
        ({
            let plans = Seq::new(m.files@.len(), |i: int| plan_of(m.files@[i], acks[i]));
            &&& sent_whole(m.files@, plans, lens, m.files@.len())
            &&& planned_bytes(m.files@, plans, m.files@.len()) <= u64::MAX
        }),
        file_count(m.files@) <= u32::MAX,
    ensures
        ({
            let plans = Seq::new(m.files@.len(), |i: int| plan_of(m.files@[i], acks[i]));
            let s = after_entries(session_for(m), m.files@, plans, lens, m.files@.len());
            &&& s.files_done == file_count(m.files@)
            &&& s.files_done == s.files_total
            &&& s.bytes_sent == planned_bytes(m.files@, plans, m.files@.len())
            &&& s.session_id == m.session_id
            &&& s.total_bytes == m.total_bytes
        }),
{
    let n = m.files@.len();
    let plans = Seq::new(n, |i: int| plan_of(m.files@[i], acks[i]));
    assert forall|i: int| 0 <= i < n implies ((#[trigger] plans[i] is SkipDirectory) <==> m.files@[i].is_dir) by {
        assert(plans[i] == plan_of(m.files@[i], acks[i]));
    }
    lemma_files_among_prefix(m.files@, n);
    assert(m.files@.take(n as int) =~= m.files@);
    lemma_after_entries(session_for(m), m.files@, plans, lens, n);
}

/// The counters of a sending session, and where it stands in the current file.
#[derive(Debug, Clone, Copy, PartialEq, Eq)]
pub struct SenderSession {
    pub session_id: u128,
    pub total_bytes: u64,
    pub files_total: u32,
    /// Bytes accounted as sent: each file's resumed prefix and every data byte sent.
    pub bytes_sent: u64,
    /// Files finished, sent or found present at the receiver.
    pub files_done: u32,
    /// The file being sent.
    pub file_id: u128,
    /// Where the current file's sending started.
    pub resume_offset: u64,
    /// The sequence number of the next chunk of the current file.
    pub seq: u32,
    /// Chunks of the current file sent since the last acknowledgement.
    pub chunks_since_ack: u32,
}

impl SenderSession {
    /// A session waits for an acknowledgement after every `ACK_EVERY`-th chunk of a
    /// file, so what it counts since the last one is the chunk count modulo `ACK_EVERY`.
    pub open spec fn well_formed(&self) -> bool {
        self.chunks_since_ack == self.seq % ACK_EVERY
    }

    /// Whether sending the next data chunk makes the session wait for an acknowledgement.
    pub open spec fn awaits_after_next(&self) -> bool {
        self.chunks_since_ack + 1 >= ACK_EVERY
    }

    /// The session once one more file is done.
    pub open spec fn file_done(self) -> SenderSession {
        SenderSession { files_done: (self.files_done + 1) as u32, ..self }
    }

    /// The session once it starts sending file `file_id` from byte `resume_offset`:
    /// the resumed prefix counts as sent, and the chunk count starts over.
    pub open spec fn began(self, file_id: u128, resume_offset: u64) -> SenderSession {
        SenderSession {
            file_id,
            resume_offset,
            seq: 0,
            chunks_since_ack: 0,
            bytes_sent: (self.bytes_sent + resume_offset) as u64,
            ..self
        }
    }

    /// The session once it sent a data chunk of `len` bytes.
    pub open spec fn chunk_sent(self, len: nat) -> SenderSession {
        SenderSession {
            seq: (self.seq + 1) as u32,
            bytes_sent: (self.bytes_sent + len) as u64,
            chunks_since_ack: if self.awaits_after_next() {
                0
            } else {
                (self.chunks_since_ack + 1) as u32
            },
            ..self
        }
    }

    /// The receiver has the file already: it counts as done.
    pub fn skip_present(&mut self)
        requires
            old(self).files_done < u32::MAX,
        ensures
            *final(self) == old(self).file_done(),
    {
        self.files_done = self.files_done + 1;
    }

    /// Starts sending file `file_id` from byte `resume_offset`: the resumed prefix is
    /// accounted as sent, and the chunk count starts over.
    pub fn begin_file(&mut self, file_id: u128, resume_offset: u64)
        requires
            old(self).bytes_sent + resume_offset <= u64::MAX,
        ensures
            *final(self) == old(self).began(file_id, resume_offset),
            final(self).well_formed(),
    {
        self.file_id = file_id;
        self.resume_offset = resume_offset;
        self.seq = 0;
        self.chunks_since_ack = 0;
        self.bytes_sent = self.bytes_sent + resume_offset;
    }

    /// The next data chunk of the current file, carrying `data`: it starts at the
    /// resume offset plus one full chunk per chunk before it. Returns the chunk and
    /// whether the sender must now wait for an acknowledgement.
    pub fn data_chunk(&mut self, data: Vec<u8>) -> (r: (Chunk, bool))
        requires
            old(self).seq < u32::MAX,
            old(self).chunks_since_ack < ACK_EVERY,
            old(self).bytes_sent + data@.len() <= u64::MAX,
            old(self).resume_offset + old(self).seq * CHUNK_SIZE <= u64::MAX,
        ensures
            r.0 == (Chunk {
                session_id: old(self).session_id,
                file_id: old(self).file_id,
                seq: old(self).seq,
                offset: (old(self).resume_offset + old(self).seq * CHUNK_SIZE) as u64,
                data,
                eof: false,
            }),
            r.1 == old(self).awaits_after_next(),
            *final(self) == old(self).chunk_sent(data@.len()),
            old(self).well_formed() ==> final(self).well_formed(),
    {
        let offset = self.resume_offset + (self.seq as u64) * CHUNK_SIZE;
        let len = data.len() as u64;
        let chunk = Chunk {
            session_id: self.session_id,
            file_id: self.file_id,
            seq: self.seq,
            offset,
            data,
            eof: false,
        };
        self.seq = self.seq + 1;
        self.bytes_sent = self.bytes_sent + len;
        self.chunks_since_ack = self.chunks_since_ack + 1;
        let wait = self.chunks_since_ack >= ACK_EVERY;
        if wait {
            self.chunks_since_ack = 0;
        }
        (chunk, wait)
    }

    /// The empty chunk that ends the current file, whose size is `size`: it carries
    /// the next sequence number and the file's size as offset.
    pub fn eof_chunk(&self, size: u64) -> (c: Chunk)
        ensures
            c == (Chunk {
                session_id: self.session_id,
                file_id: self.file_id,
                seq: self.seq,
                offset: size,
                data: c.data,
                eof: true,
            }),
            c.data@.len() == 0,
    {
        Chunk {
            session_id: self.session_id,
            file_id: self.file_id,
            seq: self.seq,
            offset: size,
            data: Vec::new(),
            eof: true,
        }
    }

    /// Whether the end of the current file is followed by waiting for an
    /// acknowledgement: only when chunks were sent since the last one.
    pub fn awaits_final_ack(&self) -> (r: bool)
        ensures
            r == (self.chunks_since_ack > 0),
    {
        self.chunks_since_ack > 0
    }

    /// The current file is sent: it counts as done.
    pub fn finish_file(&mut self)
        requires
            old(self).files_done < u32::MAX,
        ensures
            *final(self) == old(self).file_done(),
    {
        self.files_done = self.files_done + 1;
    }

    /// The progress the session reports.
    pub fn progress(&self) -> (p: TransferProgress)
        ensures
            p == (TransferProgress {
                bytes_sent: self.bytes_sent,
                total_bytes: self.total_bytes,
                files_done: self.files_done,
                files_total: self.files_total,
            }),
    {
        TransferProgress {
            bytes_sent: self.bytes_sent,
            total_bytes: self.total_bytes,
            files_done: self.files_done,
            files_total: self.files_total,
        }
    }

    /// The message that ends the session, `elapsed_ms` after it started: every file
    /// not done counts neither as completed nor as failed.
    pub fn done_message(&self, elapsed_ms: u64) -> (d: Done)
        ensures
            d == (Done {
                session_id: self.session_id,
                stats: TransferStats {
                    total_bytes: self.total_bytes,
                    transferred_bytes: self.bytes_sent,
                    elapsed_ms,
                    files_total: self.files_total,
                    files_completed: self.files_done,
                    files_failed: 0,
                },
            }),
    {
        Done {
            session_id: self.session_id,
            stats: TransferStats {
                total_bytes: self.total_bytes,
                transferred_bytes: self.bytes_sent,
                elapsed_ms,
                files_total: self.files_total,
                files_completed: self.files_done,
                files_failed: 0,
            },
        }
    }
}

impl Sender {
    /// A session sending `manifest`: nothing sent, no file done, and as many files to
    /// do as the manifest has file entries (counted in 32 bits).
    pub fn new_session(manifest: &Manifest) -> (s: SenderSession)
        ensures
            s == session_for(*manifest),
            s.well_formed(),
    {
        SenderSession {
            session_id: manifest.session_id,
            total_bytes: manifest.total_bytes,
            files_total: count_files(&manifest.files),
            bytes_sent: 0,
            files_done: 0,
            file_id: 0,
            resume_offset: 0,
            seq: 0,
            chunks_since_ack: 0,
        }
    }

    /// What to do with `entry` given the receiver's answer `ack` for it.
    pub fn plan_file(entry: &FileEntry, ack: &FileAck) -> (p: FilePlan)
        ensures
            p == plan_of(*entry, *ack),
    {
        if entry.is_dir {
            return FilePlan::SkipDirectory;
        }
        match ack.decision {
            FileDecision::SkipAlreadyPresent => FilePlan::AlreadyPresent,
            FileDecision::RestartFile { resume_offset } => FilePlan::Transfer { resume_offset },
            FileDecision::Send => FilePlan::Transfer { resume_offset: 0 },
        }
    }

    /// The plans of a manifest's entries, paired with the receiver's answers by
    /// position; entries or answers beyond the shorter list are left out.
    pub fn plan_files(files: &Vec<FileEntry>, acks: &Vec<FileAck>) -> (plans: Vec<FilePlan>)
        ensures
            plans@.len() == if files@.len() <= acks@.len() {
                files@.len()
            } else {
                acks@.len()
            },
            forall|i: int| 0 <= i < plans@.len() ==> #[trigger] plans@[i] == plan_of(files@[i], acks@[i]),
    {
        let mut plans: Vec<FilePlan> = Vec::new();
        let mut i: usize = 0;
        while i < files.len() && i < acks.len()
            invariant
                i <= files@.len(),
                i <= acks@.len(),
                plans@.len() == i,
                forall|k: int| 0 <= k < i ==> #[trigger] plans@[k] == plan_of(files@[k], acks@[k]),
            decreases files@.len() - i,
        {
            plans.push(Self::plan_file(&files[i], &acks[i]));
            i = i + 1;
        }
        plans
    }

    /// The receiver's answer to a manifest, which must be a `ManifestAck`
    /// (`None`: the connection closed).
    pub fn expect_manifest_ack(reply: Option<WireMessage>) -> (r: Result<ManifestAck, ProtocolError>)
        ensures
            match reply {
                Some(WireMessage::ManifestAck(a)) => r == Ok::<ManifestAck, ProtocolError>(a),
                _ => r == Err::<ManifestAck, ProtocolError>(reply_error(MessageKind::ManifestAck, reply)),
            },
    {
        match reply {
            Some(WireMessage::ManifestAck(a)) => Ok(a),
            _ => Err(reply_mismatch(MessageKind::ManifestAck, &reply)),
        }
    }

    /// The receiver's acknowledgement of a run of chunks, which must be a `ChunkAck`
    /// (`None`: the connection closed).
    pub fn expect_chunk_ack(reply: Option<WireMessage>) -> (r: Result<ChunkAck, ProtocolError>)
        ensures
            match reply {
                Some(WireMessage::ChunkAck(a)) => r == Ok::<ChunkAck, ProtocolError>(a),
                _ => r == Err::<ChunkAck, ProtocolError>(reply_error(MessageKind::ChunkAck, reply)),
            },
    {
        match reply {
            Some(WireMessage::ChunkAck(a)) => Ok(a),
            _ => Err(reply_mismatch(MessageKind::ChunkAck, &reply)),
        }
    }
}

/// Where the bytes of the entry at `relative_path` come from: the first of `paths`
/// that holds it. A file holds it when its file name is `relative_path`; a directory
/// when `present` says yes for `relative_path` joined to the directory's parent.
/// `present` is asked only of directories looked at before one that holds the entry.
pub fn find_source_path<F: Fn(&str) -> bool>(paths: &Vec<SourcePath>, relative_path: &str, present: &F) -> (r:
    Option<String>)
    requires
        forall|c: &str| #[trigger] present.requires((c,)),
    ensures
        match r {
            Some(found) => exists|i: int|
                0 <= i < paths@.len() && (forall|j: int|
                    0 <= j < i ==> source_declines(*present, #[trigger] paths@[j], relative_path@))
                    && source_offers(*present, paths@[i], relative_path@, found@),
            None => forall|j: int|
                0 <= j < paths@.len() ==> source_declines(*present, #[trigger] paths@[j], relative_path@),
        },
{
    let mut i: usize = 0;
    while i < paths.len()
        invariant
            i <= paths@.len(),
            forall|c: &str| #[trigger] present.requires((c,)),
            forall|j: int| 0 <= j < i ==> source_declines(*present, #[trigger] paths@[j], relative_path@),
        decreases paths@.len() - i,
    {
        let p = &paths[i];
        match p.kind {
            SourceKind::File => {
                match path_file_name(p.path.as_str()) {
                    Some(n) => {
                        if str_eq(n.as_str(), relative_path) {
                            return Some(p.path.clone());
                        }
                    },
                    None => {},
                }
            },
            SourceKind::Dir => {
                let parent = match path_parent(p.path.as_str()) {
                    Some(q) => q,
                    None => p.path.clone(),
                };
                let candidate = path_join(parent.as_str(), relative_path);
                let c: &str = candidate.as_str();
                let here = present(c);
                if here {
                    return Some(candidate);
                }
            },
            SourceKind::Other => {},
        }
        i = i + 1;
    }
    None
}

} // verus!
