//! Turns raw notifications about the watched directory into controller commands
//! about the one target file.
//!
//! The directory is watched rather than the file, since editors often replace a file
//! by renaming a new one over it. Paths are compared in canonical form.
use crate::messages::WorkerMessage;
use vstd::prelude::*;

verus! {

/// What happened to the paths of one notification.
#[derive(Debug, Clone, Copy, PartialEq, Eq)]
pub enum FsEventKind {
    Created,
    Modified,
    /// Removal, access, metadata and anything else that does not change contents.
    Other,
}

/// One notification of the directory watch, its paths in canonical form.
pub struct FsEvent {
    pub kind: FsEventKind,
    pub paths: Vec<String>,
}

pub open spec fn changes_contents(kind: FsEventKind) -> bool {
    kind is Created || kind is Modified
}

/// Whether the notification says that the target file's contents may have changed.
pub open spec fn concerns_target(event: FsEvent, target: Seq<char>) -> bool {
    changes_contents(event.kind) && exists|i: int|
        0 <= i < event.paths@.len() && (#[trigger] event.paths@[i])@ == target
}

/// Whether the target file (`target`, canonical) has to be read again after `event`.
pub fn touches_target(event: &FsEvent, target: &String) -> (r: bool)
    ensures
        r == concerns_target(*event, target@),
{
    let relevant = match event.kind {
        FsEventKind::Other => false,
        _ => true,
    };
    if !relevant {
        return false;
    }
    let n = event.paths.len();
    let mut i: usize = 0;
    while i < n
        invariant
            n == event.paths@.len(),
            changes_contents(event.kind),
            0 <= i <= n,
            forall|j: int| 0 <= j < i ==> (#[trigger] event.paths@[j])@ != target@,
        decreases n - i,
    {
        if event.paths[i] == *target {
            assert((event.paths@[i as int])@ == target@);
            return true;
        }
        i = i + 1;
    }
    false
}

/// The command that reports the target file's new contents, or why they could not
/// be read.
pub fn read_outcome(read: Result<String, String>) -> (r: WorkerMessage)
    ensures
        match read {
            Ok(code) => r == WorkerMessage::FileChanged { code },
            Err(error) => r == WorkerMessage::WatchError { error },
        },
{
    match read {
        Ok(code) => WorkerMessage::FileChanged { code },
        Err(error) => WorkerMessage::WatchError { error },
    }
}

} // verus!
