//! Hashing a file, as a conversation: the caller reports what the file
//! system said, the hasher answers what to do next.
//!
//! A path is looked up before anything is read. Only a regular file that is
//! not a symbolic link is read; its digest is the one the samples give.

use crate::hasher::Imohash;
use vstd::prelude::*;

verus! {

/// Why a file has no digest.
#[derive(Clone, Copy, Debug, PartialEq, Eq, Structural)]
pub enum HashError {
    /// The path leads nowhere, or nothing could be learned about it.
    NotFound,
    /// The path leads to a directory, a special file or a symbolic link.
    NotARegularFile,
    /// Reading the samples failed.
    IoFailure,
}

/// What the file system says of a path.
#[derive(Clone, Copy, Debug, PartialEq, Eq, Structural)]
pub struct FileEntry {
    /// Whether the path leads to a regular file, links followed.
    pub is_file: bool,
    /// Whether the path itself is a symbolic link.
    pub is_symlink: bool,
    /// The size of the file, in bytes.
    pub len: u64,
}

/// What the caller has to report.
#[derive(Clone, Copy, Debug, PartialEq, Eq, Structural)]
pub enum FileEvent {
    /// The lookup found nothing.
    Missing,
    /// The lookup found an entry.
    Found(FileEntry),
    /// The samples were read and gave this value.
    Sampled(u128),
    /// Reading the samples failed.
    ReadFailed,
}

/// What the caller has to do next.
#[derive(Clone, Copy, Debug, PartialEq, Eq, Structural)]
pub enum FileAction {
    /// Read the samples and report the outcome.
    Read,
    /// Hand out the digest.
    Done(crate::digest::Hash),
    /// Give up with this error.
    Fail(HashError),
}

/// Whether an entry may be read: a regular file that is no symbolic link.
pub open spec fn readable(entry: FileEntry) -> bool {
    entry.is_file && !entry.is_symlink
}

/// What follows each event.
pub open spec fn answers(event: FileEvent, action: FileAction) -> bool {
    match event {
        FileEvent::Missing => action == FileAction::Fail(HashError::NotFound),
        FileEvent::Found(entry) => if readable(entry) {
            action == FileAction::Read
        } else {
            action == FileAction::Fail(HashError::NotARegularFile)
        },
        FileEvent::Sampled(value) => action matches FileAction::Done(hash) && hash@ == value,
        FileEvent::ReadFailed => action == FileAction::Fail(HashError::IoFailure),
    }
}

impl Imohash {
    /// Whether this hasher can take what `event` announces: a readable file
    /// must have a size that the hasher accepts.
    pub open spec fn accepts_event(&self, event: FileEvent) -> bool {
        match event {
            FileEvent::Found(entry) => readable(entry) ==> self.accepts(entry.len as nat),
            _ => true,
        }
    }

    /// Whether this hasher can take what `event` announces.
    pub fn can_take(&self, event: FileEvent) -> (ok: bool)
        ensures
            ok == self.accepts_event(event),
    {
        match event {
            FileEvent::Found(entry) => !(entry.is_file && !entry.is_symlink) || self.can_hash(
                entry.len,
            ),
            _ => true,
        }
    }

    /// One step of hashing a file: the action that follows `event`.
    pub fn get_for_file(&self, event: FileEvent) -> (action: FileAction)
        requires
            self.accepts_event(event),
        ensures
            answers(event, action),
    {
        match event {
            FileEvent::Missing => FileAction::Fail(HashError::NotFound),
            FileEvent::Found(entry) => {
                if !entry.is_file || entry.is_symlink {
                    FileAction::Fail(HashError::NotARegularFile)
                } else {
                    FileAction::Read
                }
            },
            FileEvent::Sampled(value) => FileAction::Done(crate::digest::Hash::new(value)),
            FileEvent::ReadFailed => FileAction::Fail(HashError::IoFailure),
        }
    }
}

/// A symbolic link is turned away before any read, also where it leads to a
/// regular file.
pub proof fn lemma_symlink_turned_away(entry: FileEntry, action: FileAction)
    requires
        entry.is_symlink,
        answers(FileEvent::Found(entry), action),
    ensures
        action == FileAction::Fail(HashError::NotARegularFile),
{
}

/// Nothing is read unless the lookup found a regular file that is no
/// symbolic link.
pub proof fn lemma_read_only_regular_files(event: FileEvent, action: FileAction)
    requires
        answers(event, action),
    ensures
        action == FileAction::Read <==> (event matches FileEvent::Found(entry) && entry.is_file
            && !entry.is_symlink),
{
}

} // verus!
