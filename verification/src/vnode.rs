//! Keeping one seeded file in place: reuse the stored file when its bytes already match,
//! rewrite it when they differ or its blob is gone, create it when it does not exist.

use vstd::prelude::*;
use crate::error::SeedError;

verus! {

/// What reading the stored blob of an existing file gave.
pub enum BlobRead {
    /// The store has no blob for the file.
    Missing,
    /// The store has a blob but reading it failed.
    Unreadable,
    /// The blob's bytes.
    Contents(Vec<u8>),
}

/// Whether the stored blob holds exactly `wanted`: a missing blob does not, an unreadable
/// one is an error.
pub open spec fn blob_outcome(read: BlobRead, wanted: Seq<u8>) -> Result<bool, SeedError> {
    match read {
        BlobRead::Missing => Ok(false),
        BlobRead::Unreadable => Err(SeedError::StoreUnreadable),
        BlobRead::Contents(stored) => Ok(stored@ == wanted),
    }
}

/// Whether two byte strings are equal.
pub fn bytes_equal(a: &[u8], b: &[u8]) -> (r: bool)
    ensures
        r == (a@ == b@),
{
    if a.len() != b.len() {
        return false;
    }
    let mut i: usize = 0;
    while i < a.len()
        invariant
            a.len() == b.len(),
            i <= a.len(),
            forall|k: int| 0 <= k < i ==> a@[k] == b@[k],
        decreases a.len() - i,
    {
        if a[i] != b[i] {
            return false;
        }
        i = i + 1;
    }
    assert(a@ =~= b@);
    true
}

/// Whether the stored blob of an existing file already holds `bytes`.
pub fn vnode_bytes_match(read: &BlobRead, bytes: &[u8]) -> (r: Result<bool, SeedError>)
    ensures
        r == blob_outcome(*read, bytes@),
{
    match read {
        BlobRead::Missing => Ok(false),
        BlobRead::Unreadable => Err(SeedError::StoreUnreadable),
        BlobRead::Contents(stored) => Ok(bytes_equal(stored.as_slice(), bytes)),
    }
}

/// The store path of a file's blob: its recorded path, or the empty path when none is
/// recorded.
pub fn blob_path(file_path: &Option<String>) -> (path: String)
    ensures
        path@ == match file_path {
            Some(p) => p@,
            None => Seq::<char>::empty(),
        },
{
    match file_path {
        Some(p) => p.clone(),
        None => String::new(),
    }
}

/// Where keeping a file in place stands.
#[derive(Clone, Copy, PartialEq, Eq, Structural, Debug)]
pub enum FileStep {
    /// Waiting for the lookup of the file by name in its folder.
    LookingUp,
    /// The file exists as `existing`; waiting for its stored blob.
    CheckingBlob { existing: i64 },
    /// Waiting for the file to be created or its content replaced.
    Writing,
    /// The file is `vnode_id`; `rewritten` tells whether its content was written.
    Done { vnode_id: i64, rewritten: bool },
    /// Stopped on an error.
    Failed,
}

/// What the outside world reports back to a file being kept in place.
pub enum FileEvent {
    /// The lookup found the file with this id, or nothing.
    Found(Option<i64>),
    /// The stored blob of the existing file was read.
    Blob(BlobRead),
    /// The file was created, or its content replaced, as this vnode.
    Written(i64),
}

/// What to do next for a file being kept in place.
#[derive(Clone, Copy, PartialEq, Eq, Structural, Debug)]
pub enum FileAction {
    /// Look the file up by name, as a non-directory, in its folder.
    FindChild,
    /// Read the stored blob of the existing file.
    OpenBlob { existing: i64 },
    /// Replace the content of the existing file with the wanted bytes.
    ReplaceContent { existing: i64 },
    /// Create the file with the wanted bytes in its folder.
    CreateNode,
    /// The file is in place as `vnode_id`; `rewritten` tells whether it was written.
    Finished { vnode_id: i64, rewritten: bool },
    /// Stop with this error.
    Fail(SeedError),
}

/// The next step and action of keeping a file with bytes `wanted` in place, at step
/// `step`, when `event` arrives.
pub open spec fn file_transition(step: FileStep, wanted: Seq<u8>, event: FileEvent) -> (
    FileStep,
    FileAction,
) {
    match (step, event) {
        (FileStep::LookingUp, FileEvent::Found(None)) => (FileStep::Writing, FileAction::CreateNode),
        (FileStep::LookingUp, FileEvent::Found(Some(id))) => (
            FileStep::CheckingBlob { existing: id },
            FileAction::OpenBlob { existing: id },
        ),
        (FileStep::CheckingBlob { existing }, FileEvent::Blob(read)) => match blob_outcome(
            read,
            wanted,
        ) {
            Err(e) => (FileStep::Failed, FileAction::Fail(e)),
            Ok(true) => (
                FileStep::Done { vnode_id: existing, rewritten: false },
                FileAction::Finished { vnode_id: existing, rewritten: false },
            ),
            Ok(false) => (FileStep::Writing, FileAction::ReplaceContent { existing }),
        },
        (FileStep::Writing, FileEvent::Written(id)) => (
            FileStep::Done { vnode_id: id, rewritten: true },
            FileAction::Finished { vnode_id: id, rewritten: true },
        ),
        _ => (step, FileAction::Fail(SeedError::UnexpectedEvent)),
    }
}

/// Keeps one file with the bytes `wanted` in place.
pub struct FileSync {
    pub wanted: Vec<u8>,
    pub step: FileStep,
}

impl FileSync {
    /// Starts keeping a file with the bytes `wanted` in place: first look it up.
    pub fn new(wanted: Vec<u8>) -> (r: (FileSync, FileAction))
        ensures
            r.0.wanted@ == wanted@,
            r.0.step == FileStep::LookingUp,
            r.1 == FileAction::FindChild,
    {
        (FileSync { wanted, step: FileStep::LookingUp }, FileAction::FindChild)
    }

    /// Takes in what the outside world reports and says what to do next.
    pub fn step(&mut self, event: FileEvent) -> (action: FileAction)
        ensures
            final(self).wanted@ == old(self).wanted@,
            (final(self).step, action) == file_transition(old(self).step, old(self).wanted@, event),
    {
        let step = self.step;
        match (step, event) {
            (FileStep::LookingUp, FileEvent::Found(None)) => {
                self.step = FileStep::Writing;
                FileAction::CreateNode
            },
            (FileStep::LookingUp, FileEvent::Found(Some(id))) => {
                self.step = FileStep::CheckingBlob { existing: id };
                FileAction::OpenBlob { existing: id }
            },
            (FileStep::CheckingBlob { existing }, FileEvent::Blob(read)) => {
                match vnode_bytes_match(&read, self.wanted.as_slice()) {
                    Err(e) => {
                        self.step = FileStep::Failed;
                        FileAction::Fail(e)
                    },
                    Ok(true) => {
                        self.step = FileStep::Done { vnode_id: existing, rewritten: false };
                        FileAction::Finished { vnode_id: existing, rewritten: false }
                    },
                    Ok(false) => {
                        self.step = FileStep::Writing;
                        FileAction::ReplaceContent { existing }
                    },
                }
            },
            (FileStep::Writing, FileEvent::Written(id)) => {
                self.step = FileStep::Done { vnode_id: id, rewritten: true };
                FileAction::Finished { vnode_id: id, rewritten: true }
            },
            _ => FileAction::Fail(SeedError::UnexpectedEvent),
        }
    }
}

} // verus!
