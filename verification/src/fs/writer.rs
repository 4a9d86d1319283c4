//! The receiving side's decisions about where files go and what to ask for.
use std::collections::HashMap;
use vstd::prelude::*;
use vstd::std_specs::iter::IteratorSpec;

use crate::protocol::messages::{FileAck, FileDecision, FileEntry, Manifest, ManifestAck};
use crate::fs::paths::{absolute_path, joined_path, path_is_absolute, path_join};
use crate::text::{contains_double_dot, has_double_dot, is_prefix, starts_with};

verus! {

broadcast use vstd::std_specs::hash::group_hash_axioms;

/// Why a manifest entry cannot be received.
#[derive(Debug)]
pub enum WriterError {
    /// The destination holds `..`; the destination is given.
    PathTraversal(String),
    /// The destination lies outside the receive directory; the absolute destination is given.
    EscapesReceiveDir(String),
    /// Data came for a file that is not open; its id is given.
    NoOpenFile(u128),
}

/// The absolute form of a destination: itself when absolute, else joined to the receive directory.
pub open spec fn absolute_destination(receive_dir: Seq<char>, dest: Seq<char>) -> Seq<char> {
    if absolute_path(dest) {
        dest
    } else {
        joined_path(receive_dir, dest)
    }
}

/// What a receiver asks for of a file of `size` bytes, given the size of what it
/// already holds at the destination, if anything: nothing when that is the whole
/// file, the rest when it is a shorter prefix, the whole file otherwise.
pub open spec fn decision_for(size: u64, existing: Option<u64>) -> FileDecision {
    match existing {
        Some(have) => if have == size {
            FileDecision::SkipAlreadyPresent
        } else if have < size {
            FileDecision::RestartFile { resume_offset: have }
        } else {
            FileDecision::Send
        },
        None => FileDecision::Send,
    }
}

/// A destination the receiver accepts: it holds no `..` and, made absolute, starts
/// with the receive directory's text.
pub open spec fn dest_accepted(receive_dir: Seq<char>, dest: Seq<char>) -> bool {
    !has_double_dot(dest) && is_prefix(receive_dir, absolute_destination(receive_dir, dest))
}

/// The destination of a manifest entry.
pub open spec fn entry_dest(receive_dir: Seq<char>, e: FileEntry) -> Seq<char> {
    joined_path(receive_dir, e.relative_path@)
}

/// The error a refused destination gives.
pub open spec fn dest_error(receive_dir: Seq<char>, dest: Seq<char>, e: WriterError) -> bool {
    if has_double_dot(dest) {
        e matches WriterError::PathTraversal(p) && p@ == dest
    } else {
        e matches WriterError::EscapesReceiveDir(p) && p@ == absolute_destination(receive_dir, dest)
    }
}

/// What the receiver answers for an entry: nothing wanted of a directory, otherwise
/// as `decision_for` the size already at its destination.
pub open spec fn entry_decision_for(e: FileEntry, existing: Option<u64>) -> FileDecision {
    if e.is_dir {
        FileDecision::SkipAlreadyPresent
    } else {
        decision_for(e.size, existing)
    }
}

/// Where received files go.
pub struct FileWriter;

impl FileWriter {
    /// The destination of a manifest entry: its relative path joined to the receive directory.
    pub fn destination(receive_dir: &str, relative_path: &str) -> (d: String)
        ensures
            d@ == joined_path(receive_dir@, relative_path@),
    {
        path_join(receive_dir, relative_path)
    }

    /// Refuses a destination that holds `..` or that, made absolute, does not start
    /// with the receive directory's text.
    pub fn validate_dest(receive_dir: &str, dest: &str) -> (r: Result<(), WriterError>)
        ensures
            r is Ok <==> !has_double_dot(dest@) && is_prefix(
                receive_dir@,
                absolute_destination(receive_dir@, dest@),
            ),
            r matches Err(WriterError::PathTraversal(p)) ==> has_double_dot(dest@) && p@ == dest@,
            r matches Err(WriterError::EscapesReceiveDir(p)) ==> !has_double_dot(dest@) && p@
                == absolute_destination(receive_dir@, dest@),
            !(r matches Err(WriterError::NoOpenFile(_))),
    {
        if contains_double_dot(dest) {
            return Err(WriterError::PathTraversal(String::from_str(dest)));
        }
        let dest_abs = if path_is_absolute(dest) {
            String::from_str(dest)
        } else {
            path_join(receive_dir, dest)
        };
        if !starts_with(dest_abs.as_str(), receive_dir) {
            return Err(WriterError::EscapesReceiveDir(dest_abs));
        }
        Ok(())
    }

    /// What to ask for of a file of `size` bytes, given what the destination already holds.
    pub fn decide(size: u64, existing: Option<u64>) -> (d: FileDecision)
        ensures
            d == decision_for(size, existing),
    {
        match existing {
            Some(have) => {
                if have == size {
                    FileDecision::SkipAlreadyPresent
                } else if have < size {
                    FileDecision::RestartFile { resume_offset: have }
                } else {
                    FileDecision::Send
                }
            },
            None => FileDecision::Send,
        }
    }

    /// What to ask for of a manifest entry: nothing of a directory, otherwise as `decide`.
    pub fn entry_decision(entry: &FileEntry, existing: Option<u64>) -> (d: FileDecision)
        ensures
            d == if entry.is_dir {
                FileDecision::SkipAlreadyPresent
            } else {
                decision_for(entry.size, existing)
            },
    {
        if entry.is_dir {
            FileDecision::SkipAlreadyPresent
        } else {
            Self::decide(entry.size, existing)
        }
    }
}

impl FileWriter {
    /// The answer to `manifest`, given for each entry the size of what its destination
    /// already holds (`existing`, by position): each entry in order gets its destination
    /// checked and its decision. Fails at the first entry whose destination is refused.
    pub fn plan_manifest(receive_dir: &str, manifest: &Manifest, existing: &Vec<Option<u64>>) -> (r: Result<
        ManifestAck,
        WriterError,
    >)
        requires
            existing@.len() == manifest.files@.len(),
        ensures
            r is Ok <==> forall|i: int|
                0 <= i < manifest.files@.len() ==> dest_accepted(
                    receive_dir@,
                    #[trigger] entry_dest(receive_dir@, manifest.files@[i]),
                ),
            r matches Ok(ack) ==> {
                &&& ack.session_id == manifest.session_id
                &&& ack.files@.len() == manifest.files@.len()
                &&& forall|i: int|
                    0 <= i < ack.files@.len() ==> #[trigger] ack.files@[i] == (FileAck {
                        file_id: manifest.files@[i].file_id,
                        decision: entry_decision_for(manifest.files@[i], existing@[i]),
                    })
            },
            r matches Err(e) ==> exists|i: int|
                0 <= i < manifest.files@.len() && (forall|j: int|
                    0 <= j < i ==> dest_accepted(
                        receive_dir@,
                        #[trigger] entry_dest(receive_dir@, manifest.files@[j]),
                    )) && !dest_accepted(receive_dir@, entry_dest(receive_dir@, manifest.files@[i]))
                    && dest_error(receive_dir@, entry_dest(receive_dir@, manifest.files@[i]), e),
    {
        let mut acks: Vec<FileAck> = Vec::new();
        let mut i: usize = 0;
        while i < manifest.files.len()
            invariant
                i <= manifest.files@.len(),
                existing@.len() == manifest.files@.len(),
                acks@.len() == i,
                forall|j: int|
                    0 <= j < i ==> dest_accepted(
                        receive_dir@,
                        #[trigger] entry_dest(receive_dir@, manifest.files@[j]),
                    ),
                forall|j: int|
                    0 <= j < i ==> #[trigger] acks@[j] == (FileAck {
                        file_id: manifest.files@[j].file_id,
                        decision: entry_decision_for(manifest.files@[j], existing@[j]),
                    }),
            decreases manifest.files@.len() - i,
        {
            let entry = &manifest.files[i];
            let dest = Self::destination(receive_dir, entry.relative_path.as_str());
            match Self::validate_dest(receive_dir, dest.as_str()) {
                Ok(()) => {},
                Err(e) => {
                    assert(!dest_accepted(receive_dir@, entry_dest(receive_dir@, manifest.files@[i as int])));
                    assert(dest_error(receive_dir@, entry_dest(receive_dir@, manifest.files@[i as int]), e));
                    return Err(e);
                },
            }
            let decision = Self::entry_decision(entry, existing[i]);
            acks.push(FileAck { file_id: entry.file_id, decision });
            i = i + 1;
        }
        Ok(ManifestAck { session_id: manifest.session_id, files: acks })
    }
}

/// The files a receiver has open, each with the bytes written to it this session.
pub struct WriteLedger {
    open: HashMap<u128, u64>,
}

impl WriteLedger {
    /// The open files, by id, with the bytes written to each.
    pub closed spec fn open_view(&self) -> Map<u128, u64> {
        self.open@
    }

    /// No file open.
    pub fn new() -> (l: WriteLedger)
        ensures
            l.open_view() == Map::<u128, u64>::empty(),
    {
        WriteLedger { open: HashMap::new() }
    }

    /// File `file_id` is opened (again): nothing written to it yet.
    pub fn open_file(&mut self, file_id: u128)
        ensures
            final(self).open_view() == old(self).open_view().insert(file_id, 0),
    {
        self.open.insert(file_id, 0);
    }

    /// Records `len` more bytes written to file `file_id` and returns what it now
    /// holds written; fails when the file is not open.
    pub fn record_write(&mut self, file_id: u128, len: u64) -> (r: Result<u64, WriterError>)
        requires
            old(self).open_view().contains_key(file_id) ==> old(self).open_view()[file_id] + len
                <= u64::MAX,
        ensures
            old(self).open_view().contains_key(file_id) ==> {
                &&& r == Ok::<u64, WriterError>((old(self).open_view()[file_id] + len) as u64)
                &&& final(self).open_view() == old(self).open_view().insert(
                    file_id,
                    (old(self).open_view()[file_id] + len) as u64,
                )
            },
            !old(self).open_view().contains_key(file_id) ==> {
                &&& r matches Err(WriterError::NoOpenFile(id)) && id == file_id
                &&& final(self).open_view() == old(self).open_view()
            },
    {
        match self.open.get(&file_id) {
            Some(w) => {
                let total = *w + len;
                self.open.insert(file_id, total);
                Ok(total)
            },
            None => Err(WriterError::NoOpenFile(file_id)),
        }
    }

    /// The bytes written to file `file_id`, if it is open.
    pub fn written(&self, file_id: u128) -> (r: Option<u64>)
        ensures
            r == (if self.open_view().contains_key(file_id) {
                Some(self.open_view()[file_id])
            } else {
                None
            }),
    {
        match self.open.get(&file_id) {
            Some(w) => Some(*w),
            None => None,
        }
    }

    /// Closes file `file_id`; says whether it was open.
    pub fn close_file(&mut self, file_id: u128) -> (was_open: bool)
        ensures
            was_open == old(self).open_view().contains_key(file_id),
            final(self).open_view() == old(self).open_view().remove(file_id),
    {
        self.open.remove(&file_id).is_some()
    }

    /// The ids of the open files, each once, in some order.
    pub fn open_files(&self) -> (ids: Vec<u128>)
        ensures
            ids@.no_duplicates(),
            ids@.to_set() == self.open_view().dom(),
    {
        let ghost all = self.open.keys().remaining().unref();
        let mut ids: Vec<u128> = Vec::new();
        for k in it: self.open.keys()
            invariant
                all == it.seq().unref(),
                ids@ == it.seq().take(it.index()).unref(),
            ensures
                ids@ == all,
        {
            proof {
                assert(it.seq().take(it.index() + 1).unref() =~= it.seq().take(it.index()).unref().push(*k));
            }
            ids.push(*k);
        }
        ids
    }
}

/// A resumed file never asks for bytes it already has, nor for more than the file:
/// the offset it resumes at is below the file's size.
pub proof fn lemma_resume_within_file(size: u64, existing: Option<u64>)
    ensures
        decision_for(size, existing) matches FileDecision::RestartFile { resume_offset } ==> existing
            == Some(resume_offset) && resume_offset < size,
        decision_for(size, existing) == FileDecision::SkipAlreadyPresent <==> existing == Some(size),
{
}

} // verus!
