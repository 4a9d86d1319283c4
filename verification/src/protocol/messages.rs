//! The messages of the transfer protocol. Identifiers are 128-bit UUIDs.
use vstd::prelude::*;

verus! {

/// The protocol version this implementation speaks.
pub const PROTOCOL_VERSION: u16 = 1;

/// The largest chunk this implementation sends (256 KiB).
pub const MAX_CHUNK_SIZE: u32 = 256 * 1024;

/// What a device announces it can do.
#[derive(Debug, Clone, Copy, PartialEq, Eq)]
pub struct Capabilities {
    pub protocol_version: u16,
    pub max_chunk_size: u32,
    pub supports_tls13: bool,
    pub supports_resume: bool,
}

impl Default for Capabilities {
    fn default() -> (c: Self)
        ensures
            c.protocol_version == PROTOCOL_VERSION,
            c.max_chunk_size == MAX_CHUNK_SIZE,
            c.supports_tls13,
            c.supports_resume,
    {
        Capabilities {
            protocol_version: PROTOCOL_VERSION,
            max_chunk_size: MAX_CHUNK_SIZE,
            supports_tls13: true,
            supports_resume: true,
        }
    }
}

#[derive(Debug, Clone)]
pub struct Hello {
    pub device_id: u128,
    pub session_id: u128,
    pub device_name: String,
    pub os: String,
    pub cert_fingerprint: String,
    pub capabilities: Capabilities,
}

#[derive(Debug, Clone)]
pub struct CapsAck {
    pub device_id: u128,
    pub session_id: u128,
    pub device_name: String,
    pub cert_fingerprint: String,
    pub accepted_version: u16,
    pub requires_pairing: bool,
}

#[derive(Debug, Clone)]
pub struct PairRequest {
    pub device_id: u128,
    pub session_id: u128,
    pub pin: String,
    pub peer_fingerprint: String,
}

#[derive(Debug, Clone)]
pub struct PairAccept {
    pub device_id: u128,
    pub session_id: u128,
    pub accepted: bool,
    pub peer_fingerprint: String,
}

/// One entry of a manifest: a file or a directory, by its path relative to the
/// transfer's root, with `/` as separator.
#[derive(Debug, Clone)]
pub struct FileEntry {
    pub file_id: u128,
    pub relative_path: String,
    pub size: u64,
    pub is_dir: bool,
}

/// What a sender offers: the entries of a transfer and their total size.
#[derive(Debug, Clone)]
pub struct Manifest {
    pub session_id: u128,
    pub transfer_name: String,
    pub files: Vec<FileEntry>,
    pub total_bytes: u64,
}

/// What a receiver wants of one file.
#[derive(Debug, Clone, Copy, PartialEq, Eq)]
pub enum FileDecision {
    /// Send the whole file.
    Send,
    /// The receiver has it already (or it is a directory): send nothing.
    SkipAlreadyPresent,
    /// The receiver has the first `resume_offset` bytes: send the rest.
    RestartFile { resume_offset: u64 },
}

#[derive(Debug, Clone, Copy)]
pub struct FileAck {
    pub file_id: u128,
    pub decision: FileDecision,
}

#[derive(Debug, Clone)]
pub struct ManifestAck {
    pub session_id: u128,
    pub files: Vec<FileAck>,
}

#[derive(Debug, Clone)]
pub struct Chunk {
    pub session_id: u128,
    pub file_id: u128,
    pub seq: u32,
    pub offset: u64,
    pub data: Vec<u8>,
    pub eof: bool,
}

#[derive(Debug, Clone, Copy, PartialEq, Eq)]
pub struct ChunkAck {
    pub session_id: u128,
    pub file_id: u128,
    pub seq: u32,
    pub committed_bytes: u64,
}

#[derive(Debug, Clone, Copy, PartialEq, Eq)]
pub struct TransferStats {
    pub total_bytes: u64,
    pub transferred_bytes: u64,
    pub elapsed_ms: u64,
    pub files_total: u32,
    pub files_completed: u32,
    pub files_failed: u32,
}

#[derive(Debug, Clone, Copy)]
pub struct Done {
    pub session_id: u128,
    pub stats: TransferStats,
}

#[derive(Debug, Clone)]
pub struct DoneAck {
    pub session_id: u128,
    pub success: bool,
    pub stats: TransferStats,
    pub failed_files: Vec<u128>,
}

/// Every message of the protocol.
#[derive(Debug, Clone)]
pub enum WireMessage {
    Hello(Hello),
    CapsAck(CapsAck),
    PairRequest(PairRequest),
    PairAccept(PairAccept),
    Manifest(Manifest),
    ManifestAck(ManifestAck),
    Chunk(Chunk),
    ChunkAck(ChunkAck),
    Done(Done),
    DoneAck(DoneAck),
}

/// The kind of a protocol message, without its contents.
#[derive(Debug, Clone, Copy, PartialEq, Eq)]
pub enum MessageKind {
    Hello,
    CapsAck,
    PairRequest,
    PairAccept,
    Manifest,
    ManifestAck,
    Chunk,
    ChunkAck,
    Done,
    DoneAck,
}

/// The kind of a message.
pub open spec fn kind_of(m: WireMessage) -> MessageKind {
    match m {
        WireMessage::Hello(_) => MessageKind::Hello,
        WireMessage::CapsAck(_) => MessageKind::CapsAck,
        WireMessage::PairRequest(_) => MessageKind::PairRequest,
        WireMessage::PairAccept(_) => MessageKind::PairAccept,
        WireMessage::Manifest(_) => MessageKind::Manifest,
        WireMessage::ManifestAck(_) => MessageKind::ManifestAck,
        WireMessage::Chunk(_) => MessageKind::Chunk,
        WireMessage::ChunkAck(_) => MessageKind::ChunkAck,
        WireMessage::Done(_) => MessageKind::Done,
        WireMessage::DoneAck(_) => MessageKind::DoneAck,
    }
}

impl WireMessage {
    /// The kind of this message.
    pub fn kind(&self) -> (k: MessageKind)
        ensures
            k == kind_of(*self),
    {
        match self {
            WireMessage::Hello(_) => MessageKind::Hello,
            WireMessage::CapsAck(_) => MessageKind::CapsAck,
            WireMessage::PairRequest(_) => MessageKind::PairRequest,
            WireMessage::PairAccept(_) => MessageKind::PairAccept,
            WireMessage::Manifest(_) => MessageKind::Manifest,
            WireMessage::ManifestAck(_) => MessageKind::ManifestAck,
            WireMessage::Chunk(_) => MessageKind::Chunk,
            WireMessage::ChunkAck(_) => MessageKind::ChunkAck,
            WireMessage::Done(_) => MessageKind::Done,
            WireMessage::DoneAck(_) => MessageKind::DoneAck,
        }
    }
}

/// A peer did not answer as the protocol asks.
#[derive(Debug, Clone, Copy, PartialEq, Eq)]
pub enum ProtocolError {
    /// A message of kind `got` came where one of kind `expected` was due.
    Unexpected { expected: MessageKind, got: MessageKind },
    /// The connection closed where a message of kind `expected` was due.
    Closed { expected: MessageKind },
}

/// The error for a reply (`None`: the connection closed) that is not of kind `expected`.
pub open spec fn reply_error(expected: MessageKind, reply: Option<WireMessage>) -> ProtocolError {
    match reply {
        Some(m) => ProtocolError::Unexpected { expected, got: kind_of(m) },
        None => ProtocolError::Closed { expected },
    }
}

/// The error for a reply (`None`: the connection closed) that is not of kind `expected`.
pub fn reply_mismatch(expected: MessageKind, reply: &Option<WireMessage>) -> (e: ProtocolError)
    ensures
        e == reply_error(expected, *reply),
{
    match reply {
        Some(m) => ProtocolError::Unexpected { expected, got: m.kind() },
        None => ProtocolError::Closed { expected },
    }
}

/// The total size of a list of manifest entries.
pub open spec fn total_size(files: Seq<FileEntry>) -> nat
    decreases files.len(),
{
    if files.len() == 0 {
        0
    } else {
        total_size(files.drop_last()) + files.last().size as nat
    }
}

/// The number of file (not directory) entries of a manifest.
pub open spec fn file_count(files: Seq<FileEntry>) -> nat
    decreases files.len(),
{
    if files.len() == 0 {
        0
    } else {
        file_count(files.drop_last()) + if files.last().is_dir {
            0nat
        } else {
            1nat
        }
    }
}

/// A manifest's file count, as the 32-bit counter the protocol carries (truncated).
pub fn count_files(files: &Vec<FileEntry>) -> (n: u32)
    ensures
        n == file_count(files@) as u32,
{
    let mut count: usize = 0;
    let mut i: usize = 0;
    while i < files.len()
        invariant
            i <= files@.len(),
            count == file_count(files@.subrange(0, i as int)),
            count <= i,
        decreases files@.len() - i,
    {
        assert(files@.subrange(0, i + 1).drop_last() =~= files@.subrange(0, i as int));
        if !files[i].is_dir {
            count = count + 1;
        }
        i = i + 1;
    }
    assert(files@.subrange(0, files@.len() as int) =~= files@);
    #[verifier::truncate]
    (count as u32)
}

} // verus!
