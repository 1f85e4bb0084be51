//! Files as a host found them.

use crate::error::{FileRole, PatchError, PatchErrorView};
use vstd::prelude::*;

verus! {

/// What a host found at a path.
#[derive(Clone, Debug, PartialEq, Eq)]
pub enum FileState {
    /// Nothing exists at the path.
    Missing,
    /// The path names something that is not a regular file.
    NotAFile,
    /// A regular file that could not be opened or read.
    Unreadable { cause: String },
    /// A regular file and the bytes it holds.
    Readable { contents: Vec<u8> },
}

/// A [`FileState`] with its text and bytes as sequences.
pub enum FileStateView {
    Missing,
    NotAFile,
    Unreadable { cause: Seq<char> },
    Readable { contents: Seq<u8> },
}

impl View for FileState {
    type V = FileStateView;

    open spec fn view(&self) -> FileStateView {
        match *self {
            FileState::Missing => FileStateView::Missing,
            FileState::NotAFile => FileStateView::NotAFile,
            FileState::Unreadable { cause } => FileStateView::Unreadable { cause: cause@ },
            FileState::Readable { contents } => FileStateView::Readable { contents: contents@ },
        }
    }
}

/// A path and what a host found there.
#[derive(Clone, Debug, PartialEq, Eq)]
pub struct FileEntry {
    pub path: String,
    pub state: FileState,
}

/// A [`FileEntry`] with its texts and bytes as sequences.
pub struct FileEntryView {
    pub path: Seq<char>,
    pub state: FileStateView,
}

impl View for FileEntry {
    type V = FileEntryView;

    open spec fn view(&self) -> FileEntryView {
        FileEntryView { path: self.path@, state: self.state@ }
    }
}

impl FileEntryView {
    /// The bytes of a readable file; no bytes for any other entry.
    pub open spec fn contents(self) -> Seq<u8> {
        match self.state {
            FileStateView::Readable { contents } => contents,
            _ => Seq::empty(),
        }
    }

    /// Why the file cannot be read in the part `role`, or `None` for a
    /// readable file.
    pub open spec fn access_error(self, role: FileRole) -> Option<PatchErrorView> {
        match self.state {
            FileStateView::Missing => Some(PatchErrorView::NotFound { role, path: self.path }),
            FileStateView::NotAFile => Some(PatchErrorView::NotAFile { path: self.path }),
            FileStateView::Unreadable { cause } => Some(
                PatchErrorView::IoError { path: self.path, cause },
            ),
            FileStateView::Readable { .. } => None,
        }
    }

    /// The entry for the same path once `contents` were written to it.
    pub open spec fn written(self, contents: Seq<u8>) -> FileEntryView {
        FileEntryView { path: self.path, state: FileStateView::Readable { contents } }
    }
}

/// The state of a path at which a host found something `present` or not,
/// a `regular` file or not, and for which reading gave `read`: the first
/// of missing, not a file, and readable or unreadable that applies.
pub open spec fn found_state(present: bool, regular: bool, read: Result<Vec<u8>, String>) -> FileStateView {
    if !present {
        FileStateView::Missing
    } else if !regular {
        FileStateView::NotAFile
    } else {
        match read {
            Ok(contents) => FileStateView::Readable { contents: contents@ },
            Err(cause) => FileStateView::Unreadable { cause: cause@ },
        }
    }
}

impl FileEntry {
    /// An entry for a path at which nothing exists.
    pub fn missing(path: &str) -> (entry: FileEntry)
        ensures
            entry@ == (FileEntryView { path: path@, state: FileStateView::Missing }),
    {
        FileEntry { path: path.to_owned(), state: FileState::Missing }
    }

    /// An entry for a regular file that holds `contents`.
    pub fn readable(path: &str, contents: Vec<u8>) -> (entry: FileEntry)
        ensures
            entry@ == (FileEntryView {
                path: path@,
                state: FileStateView::Readable { contents: contents@ },
            }),
    {
        FileEntry { path: path.to_owned(), state: FileState::Readable { contents } }
    }

    /// The entry for what a host found at `path`: whether anything is
    /// present there, whether that is a regular file, and what reading it
    /// gave.
    ///
    /// The entry is `Missing` where nothing is present, else `NotAFile`
    /// where what is present is no regular file, else `Readable` with the
    /// bytes that were read or `Unreadable` with the cause of the failure.
    pub fn found(path: &str, present: bool, regular: bool, read: Result<Vec<u8>, String>) -> (entry:
        FileEntry)
        ensures
            entry@.path == path@,
            entry@.state == found_state(present, regular, read),
    {
        let state = if !present {
            FileState::Missing
        } else if !regular {
            FileState::NotAFile
        } else {
            match read {
                Ok(contents) => FileState::Readable { contents },
                Err(cause) => FileState::Unreadable { cause },
            }
        };
        FileEntry { path: path.to_owned(), state }
    }

    /// Whether nothing exists at the path.
    pub fn is_missing(&self) -> (missing: bool)
        ensures
            missing == (self@.state is Missing),
    {
        match &self.state {
            FileState::Missing => true,
            _ => false,
        }
    }

    /// Whether the path names something that is not a regular file.
    pub fn is_not_a_file(&self) -> (other: bool)
        ensures
            other == (self@.state is NotAFile),
    {
        match &self.state {
            FileState::NotAFile => true,
            _ => false,
        }
    }

    /// The bytes of the file, read in the part `role`.
    ///
    /// Fails with `NotFound` for a missing file, `NotAFile` for something
    /// that is not a regular file, and `IoError` for an unreadable one.
    pub fn read(&self, role: FileRole) -> (outcome: Result<&Vec<u8>, PatchError>)
        ensures
            match outcome {
                Ok(contents) => self@.access_error(role) is None && contents@
                    == self@.contents(),
                Err(error) => self@.access_error(role) == Some(error@),
            },
    {
        match &self.state {
            FileState::Missing => Err(PatchError::NotFound { role, path: self.path.clone() }),
            FileState::NotAFile => Err(PatchError::NotAFile { path: self.path.clone() }),
            FileState::Unreadable { cause } => Err(
                PatchError::IoError { path: self.path.clone(), cause: cause.clone() },
            ),
            FileState::Readable { contents } => Ok(contents),
        }
    }

    /// Replaces what the entry holds by a regular file with `contents`.
    pub fn write(&mut self, contents: Vec<u8>)
        ensures
            final(self)@ == old(self)@.written(contents@),
            final(self).path == old(self).path,
    {
        self.state = FileState::Readable { contents };
    }
}

} // verus!
