//! Transfers as the application state tracks them.
use vstd::prelude::*;

use crate::clock::now_ms;
use crate::ids::new_id;

verus! {

/// Where a transfer stands.
#[derive(Debug, PartialEq, Eq)]
pub enum TransferStatus {
    Queued,
    Connecting,
    Negotiating,
    Transferring,
    Completed,
    Failed(String),
    Canceled,
}

impl Clone for TransferStatus {
    fn clone(&self) -> (res: Self)
        ensures
            res == *self,
    {
        match self {
            TransferStatus::Queued => TransferStatus::Queued,
            TransferStatus::Connecting => TransferStatus::Connecting,
            TransferStatus::Negotiating => TransferStatus::Negotiating,
            TransferStatus::Transferring => TransferStatus::Transferring,
            TransferStatus::Completed => TransferStatus::Completed,
            TransferStatus::Failed(e) => TransferStatus::Failed(e.clone()),
            TransferStatus::Canceled => TransferStatus::Canceled,
        }
    }
}

/// The counters of a transfer's progress: bytes moved out of the total, and files
/// done out of the files in the manifest.
#[derive(Debug, Clone, Copy, PartialEq, Eq)]
pub struct TransferProgress {
    pub bytes_sent: u64,
    pub total_bytes: u64,
    pub files_done: u32,
    pub files_total: u32,
}

/// No progress yet, of nothing yet known.
pub open spec fn no_progress() -> TransferProgress {
    TransferProgress { bytes_sent: 0, total_bytes: 0, files_done: 0, files_total: 0 }
}

impl TransferProgress {
    /// No progress yet, of nothing yet known.
    pub fn zero() -> (p: TransferProgress)
        ensures
            p == no_progress(),
    {
        TransferProgress { bytes_sent: 0, total_bytes: 0, files_done: 0, files_total: 0 }
    }
}

/// Whether a transfer sends to a peer or receives from one.
#[derive(Debug, Clone, Copy, PartialEq, Eq)]
pub enum TransferDirection {
    Send,
    Receive,
}

/// A transfer: its id, the session on the wire once known, the peer, the paths it
/// sends, its direction, status and progress, and when it started and finished
/// (milliseconds since the Unix epoch).
#[derive(Debug)]
pub struct Transfer {
    pub id: u128,
    pub session_id: Option<u128>,
    pub peer_id: u128,
    pub peer_name: String,
    pub paths: Vec<String>,
    pub direction: TransferDirection,
    pub status: TransferStatus,
    pub progress: TransferProgress,
    pub started_at_ms: u64,
    pub finished_at_ms: Option<u64>,
}

/// Copies a list of strings.
fn clone_strings(v: &Vec<String>) -> (r: Vec<String>)
    ensures
        r@ == v@,
{
    let mut r: Vec<String> = Vec::new();
    let mut i: usize = 0;
    while i < v.len()
        invariant
            i <= v@.len(),
            r@ == v@.subrange(0, i as int),
        decreases v@.len() - i,
    {
        r.push(v[i].clone());
        assert(r@ =~= v@.subrange(0, i + 1));
        i = i + 1;
    }
    assert(v@.subrange(0, v@.len() as int) =~= v@);
    r
}

/// Two transfers agree in every field (their path lists element for element).
pub open spec fn same_transfer(a: Transfer, b: Transfer) -> bool {
    &&& a.id == b.id
    &&& a.session_id == b.session_id
    &&& a.peer_id == b.peer_id
    &&& a.peer_name == b.peer_name
    &&& a.paths@ == b.paths@
    &&& a.direction == b.direction
    &&& a.status == b.status
    &&& a.progress == b.progress
    &&& a.started_at_ms == b.started_at_ms
    &&& a.finished_at_ms == b.finished_at_ms
}

impl Clone for Transfer {
    fn clone(&self) -> (res: Self)
        ensures
            same_transfer(res, *self),
    {
        Transfer {
            id: self.id,
            session_id: self.session_id,
            peer_id: self.peer_id,
            peer_name: self.peer_name.clone(),
            paths: clone_strings(&self.paths),
            direction: self.direction,
            status: self.status.clone(),
            progress: self.progress,
            started_at_ms: self.started_at_ms,
            finished_at_ms: self.finished_at_ms,
        }
    }
}

impl Transfer {
    /// A queued transfer that sends `paths` to a peer, with a fresh id, started now.
    pub fn new_send(peer_id: u128, peer_name: String, paths: Vec<String>) -> (t: Transfer)
        ensures
            t.session_id == None::<u128>,
            t.peer_id == peer_id,
            t.peer_name == peer_name,
            t.paths == paths,
            t.direction == TransferDirection::Send,
            t.status == TransferStatus::Queued,
            t.progress == no_progress(),
            t.finished_at_ms == None::<u64>,
    {
        Transfer {
            id: new_id(),
            session_id: None,
            peer_id,
            peer_name,
            paths,
            direction: TransferDirection::Send,
            status: TransferStatus::Queued,
            progress: TransferProgress::zero(),
            started_at_ms: now_ms(),
            finished_at_ms: None,
        }
    }

    /// A transfer that receives from a peer, connecting, with a fresh id, started now.
    pub fn new_receive(peer_id: u128, peer_name: String) -> (t: Transfer)
        ensures
            t.session_id == None::<u128>,
            t.peer_id == peer_id,
            t.peer_name == peer_name,
            t.paths@ == Seq::<String>::empty(),
            t.direction == TransferDirection::Receive,
            t.status == TransferStatus::Connecting,
            t.progress == no_progress(),
            t.finished_at_ms == None::<u64>,
    {
        Transfer {
            id: new_id(),
            session_id: None,
            peer_id,
            peer_name,
            paths: Vec::new(),
            direction: TransferDirection::Receive,
            status: TransferStatus::Connecting,
            progress: TransferProgress::zero(),
            started_at_ms: now_ms(),
            finished_at_ms: None,
        }
    }

    /// Ends the transfer at `now_ms`: completed on success, otherwise failed with the
    /// error given (empty when none is).
    pub fn finish_at(&mut self, success: bool, err: Option<String>, now_ms: u64)
        ensures
            finished_with(final(self).status, success, err),
            final(self).finished_at_ms == Some(now_ms),
            *final(self) == (Transfer {
                status: final(self).status,
                finished_at_ms: final(self).finished_at_ms,
                ..*old(self)
            }),
    {
        self.status = if success {
            TransferStatus::Completed
        } else {
            match err {
                Some(e) => TransferStatus::Failed(e),
                None => TransferStatus::Failed(String::new()),
            }
        };
        self.finished_at_ms = Some(now_ms);
    }

    /// Ends the transfer now: completed on success, otherwise failed with the error
    /// given (empty when none is).
    pub fn finish(&mut self, success: bool, err: Option<String>)
        ensures
            finished_with(final(self).status, success, err),
            final(self).finished_at_ms is Some,
            *final(self) == (Transfer {
                status: final(self).status,
                finished_at_ms: final(self).finished_at_ms,
                ..*old(self)
            }),
    {
        self.finish_at(success, err, now_ms());
    }
}

/// `status` is the one a transfer ends in: completed on success, otherwise failed
/// with the error given, or with an empty error when none is.
pub open spec fn finished_with(status: TransferStatus, success: bool, err: Option<String>) -> bool {
    if success {
        status == TransferStatus::Completed
    } else {
        status matches TransferStatus::Failed(e) && e@ == match err {
            Some(x) => x@,
            None => Seq::<char>::empty(),
        }
    }
}

} // verus!
