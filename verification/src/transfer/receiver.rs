//! The receiving side of a transfer: the first message it expects, what it makes of
//! each message that follows, and the counters and acknowledgements of a session.
use vstd::prelude::*;

use crate::protocol::messages::{
    count_files, file_count, reply_error, reply_mismatch, Chunk, ChunkAck, Done, DoneAck, Manifest,
    MessageKind, ProtocolError, TransferStats, WireMessage,
};
use crate::state::transfer::TransferProgress;
use crate::transfer::sender::{SenderSession, ACK_EVERY};

verus! {

/// The receiving side of a transfer.
pub struct Receiver;

/// A message of a transfer under way, as the receiver reads it.
#[derive(Debug)]
pub enum Incoming {
    /// A chunk of file data, or the empty chunk that ends a file.
    Chunk(Chunk),
    /// The sender is done.
    Done(Done),
}

/// The counters of a receiving session.
#[derive(Debug, Clone, Copy, PartialEq, Eq)]
pub struct ReceiverSession {
    pub session_id: u128,
    pub total_bytes: u64,
    pub files_total: u32,
    /// Data bytes received, over all files.
    pub bytes_received: u64,
    /// Files whose end was received.
    pub files_done: u32,
    /// Data chunks of the current file received.
    pub chunk_count: u32,
}

impl ReceiverSession {
    /// Whether receiving one more data chunk makes the receiver acknowledge it.
    pub open spec fn acks_next(&self) -> bool {
        (self.chunk_count + 1) % (ACK_EVERY as int) == 0
    }

    /// A data chunk `seq` of file `file_id`, of `len` bytes, was written, and the file
    /// now holds `written` bytes written this session. Every `ACK_EVERY`-th data chunk
    /// of a file is acknowledged, with what the file holds as committed bytes.
    pub fn on_data(&mut self, file_id: u128, seq: u32, len: u64, written: u64) -> (ack: Option<ChunkAck>)
        requires
            old(self).bytes_received + len <= u64::MAX,
            old(self).chunk_count < u32::MAX,
        ensures
            *final(self) == (ReceiverSession {
                bytes_received: (old(self).bytes_received + len) as u64,
                chunk_count: (old(self).chunk_count + 1) as u32,
                ..*old(self)
            }),
            ack == if old(self).acks_next() {
                Some(ChunkAck { session_id: old(self).session_id, file_id, seq, committed_bytes: written })
            } else {
                None
            },
    {
        self.bytes_received = self.bytes_received + len;
        self.chunk_count = self.chunk_count + 1;
        if self.chunk_count % ACK_EVERY == 0 {
            Some(ChunkAck { session_id: self.session_id, file_id, seq, committed_bytes: written })
        } else {
            None
        }
    }

    /// The end of file `file_id` arrived as chunk `seq`: the file counts as done, the
    /// chunk count starts over, and the end is always acknowledged, with every byte
    /// received this session as committed bytes.
    pub fn on_eof(&mut self, file_id: u128, seq: u32) -> (ack: ChunkAck)
        requires
            old(self).files_done < u32::MAX,
        ensures
            *final(self) == (ReceiverSession {
                files_done: (old(self).files_done + 1) as u32,
                chunk_count: 0,
                ..*old(self)
            }),
            ack == (ChunkAck {
                session_id: old(self).session_id,
                file_id,
                seq,
                committed_bytes: old(self).bytes_received,
            }),
    {
        self.files_done = self.files_done + 1;
        self.chunk_count = 0;
        ChunkAck { session_id: self.session_id, file_id, seq, committed_bytes: self.bytes_received }
    }

    /// The progress the session reports.
    pub fn progress(&self) -> (p: TransferProgress)
        ensures
            p == (TransferProgress {
                bytes_sent: self.bytes_received,
                total_bytes: self.total_bytes,
                files_done: self.files_done,
                files_total: self.files_total,
            }),
    {
        TransferProgress {
            bytes_sent: self.bytes_received,
            total_bytes: self.total_bytes,
            files_done: self.files_done,
            files_total: self.files_total,
        }
    }

    /// The answer to the sender's `Done`, `elapsed_ms` after the session started: a
    /// success, with the session's counters and no failed file.
    pub fn done_ack(&self, elapsed_ms: u64) -> (d: DoneAck)
        ensures
            d.session_id == self.session_id,
            d.success,
            d.stats == (TransferStats {
                total_bytes: self.total_bytes,
                transferred_bytes: self.bytes_received,
                elapsed_ms,
                files_total: self.files_total,
                files_completed: self.files_done,
                files_failed: 0,
            }),
            d.failed_files@.len() == 0,
    {
        DoneAck {
            session_id: self.session_id,
            success: true,
            stats: TransferStats {
                total_bytes: self.total_bytes,
                transferred_bytes: self.bytes_received,
                elapsed_ms,
                files_total: self.files_total,
                files_completed: self.files_done,
                files_failed: 0,
            },
            failed_files: Vec::new(),
        }
    }
}

impl Receiver {
    /// A session receiving `manifest`: nothing received yet, and as many files to do
    /// as the manifest has file entries (counted in 32 bits).
    pub fn new_session(manifest: &Manifest) -> (s: ReceiverSession)
        ensures
            s == (ReceiverSession {
                session_id: manifest.session_id,
                total_bytes: manifest.total_bytes,
                files_total: file_count(manifest.files@) as u32,
                bytes_received: 0,
                files_done: 0,
                chunk_count: 0,
            }),
    {
        ReceiverSession {
            session_id: manifest.session_id,
            total_bytes: manifest.total_bytes,
            files_total: count_files(&manifest.files),
            bytes_received: 0,
            files_done: 0,
            chunk_count: 0,
        }
    }

    /// The first message of a transfer, which must be a `Manifest` (`None`: the
    /// connection closed before one came).
    pub fn expect_manifest(first: Option<WireMessage>) -> (r: Result<Manifest, ProtocolError>)
        ensures
            match first {
                Some(WireMessage::Manifest(m)) => r == Ok::<Manifest, ProtocolError>(m),
                _ => r == Err::<Manifest, ProtocolError>(reply_error(MessageKind::Manifest, first)),
            },
    {
        match first {
            Some(WireMessage::Manifest(m)) => Ok(m),
            _ => Err(reply_mismatch(MessageKind::Manifest, &first)),
        }
    }

    /// A message that arrives while a transfer is under way: a chunk or the sender's
    /// `Done`; anything else is refused (as an unexpected chunk).
    pub fn expect_transfer_message(msg: WireMessage) -> (r: Result<Incoming, ProtocolError>)
        ensures
            match msg {
                WireMessage::Chunk(c) => r matches Ok(Incoming::Chunk(c2)) && c2 == c,
                WireMessage::Done(d) => r matches Ok(Incoming::Done(d2)) && d2 == d,
                _ => r == Err::<Incoming, ProtocolError>(reply_error(MessageKind::Chunk, Some(msg))),
            },
    {
        match msg {
            WireMessage::Chunk(c) => Ok(Incoming::Chunk(c)),
            WireMessage::Done(d) => Ok(Incoming::Done(d)),
            _ => {
                let m = Some(msg);
                Err(reply_mismatch(MessageKind::Chunk, &m))
            },
        }
    }
}

/// Sender and receiver agree on acknowledgements: when both have counted the same
/// number of data chunks of a file, the sender waits for an acknowledgement after the
/// next chunk exactly when the receiver sends one for it.
pub proof fn lemma_ack_cadence_agrees(s: SenderSession, r: ReceiverSession)
    requires
        s.well_formed(),
        r.chunk_count == s.seq,
    ensures
        s.awaits_after_next() == r.acks_next(),
{
}

} // verus!
