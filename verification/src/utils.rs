//! Looking at files and patches.

use crate::bsdiff_rust::{patch_outcome, BsdiffRust};
use crate::error::{FileRole, PatchError, PatchErrorView};
use crate::file::{FileEntry, FileEntryView, FileState, FileStateView};
use crate::format::{has_magic, starts_with_magic};
use crate::stats::{ratio_of, Percent};
use vstd::prelude::*;

verus! {

/// What is known of a patch file without applying it.
#[derive(Clone, Copy, Debug, PartialEq, Eq, Structural)]
pub struct PatchInfo {
    /// Size of the file in bytes.
    pub size: u64,
    /// Whether the file starts with the magic constant of the compressed
    /// patch format.
    pub compressed: bool,
}

/// The sizes of the three files of a diff, and how small the patch is.
#[derive(Clone, Copy, Debug, PartialEq, Eq, Structural)]
pub struct CompressionRatio {
    pub old_size: u64,
    pub new_size: u64,
    pub patch_size: u64,
    /// Size of the patch as a percentage of both files together.
    pub ratio: Percent,
}

/// Checks that `file` exists, is a regular file and can be read.
///
/// Fails with `NotFound` for a missing file, `NotAFile` for something that
/// is not a regular file and `IoError` for an unreadable one; succeeds for
/// every other.
pub fn check_file_access(file: &FileEntry) -> (result: Result<(), PatchError>)
    ensures
        match result {
            Ok(_) => file@.access_error(FileRole::Any) is None,
            Err(error) => file@.access_error(FileRole::Any) == Some(error@),
        },
{
    match file.read(FileRole::Any) {
        Ok(_) => Ok(()),
        Err(error) => Err(error),
    }
}

/// The size of `file` in bytes.
///
/// Fails as [`check_file_access`] does, exactly when the file cannot be
/// read.
pub fn get_file_size(file: &FileEntry) -> (result: Result<u64, PatchError>)
    ensures
        match result {
            Ok(size) => file@.access_error(FileRole::Any) is None && size
                == file@.contents().len(),
            Err(error) => file@.access_error(FileRole::Any) == Some(error@),
        },
{
    match file.read(FileRole::Any) {
        Ok(contents) => Ok(contents.len() as u64),
        Err(error) => Err(error),
    }
}

/// The size of `patch_file`, and whether it is in the compressed patch format:
/// whether its first eight bytes are the magic constant.
///
/// Fails with the error of reading `patch_file`, exactly when it cannot be read.
pub fn get_patch_info(patch_file: &FileEntry) -> (result: Result<PatchInfo, PatchError>)
    ensures
        match result {
            Ok(info) => {
                &&& patch_file@.access_error(FileRole::Patch) is None
                &&& info.size == patch_file@.contents().len()
                &&& info.compressed == has_magic(patch_file@.contents())
            },
            Err(error) => patch_file@.access_error(FileRole::Patch) == Some(error@),
        },
{
    match patch_file.read(FileRole::Patch) {
        Ok(contents) => Ok(
            PatchInfo {
                size: contents.len() as u64,
                compressed: starts_with_magic(contents.as_slice()),
            },
        ),
        Err(error) => Err(error),
    }
}

/// The sizes of the three files as they are now, and the size of the patch
/// as a percentage of the old and the new file together.
///
/// Fails with the error of [`get_file_size`] for the first of `old_file`, `new_file`
/// and `patch_file` that cannot be read, exactly when there is one.
pub fn get_compression_ratio(old_file: &FileEntry, new_file: &FileEntry, patch_file: &FileEntry) -> (result:
    Result<CompressionRatio, PatchError>)
    ensures
        match result {
            Ok(found) => {
                &&& old_file@.state is Readable
                &&& new_file@.state is Readable
                &&& patch_file@.state is Readable
                &&& found.old_size == old_file@.contents().len()
                &&& found.new_size == new_file@.contents().len()
                &&& found.patch_size == patch_file@.contents().len()
                &&& found.ratio == ratio_of(found.old_size, found.new_size, found.patch_size)
            },
            Err(error) => Some(error@) == if old_file@.access_error(FileRole::Any) is Some {
                old_file@.access_error(FileRole::Any)
            } else if new_file@.access_error(FileRole::Any) is Some {
                new_file@.access_error(FileRole::Any)
            } else {
                patch_file@.access_error(FileRole::Any)
            },
        },
{
    let old_size: u64 = match get_file_size(old_file) {
        Ok(size) => size,
        Err(error) => return Err(error),
    };
    let new_size: u64 = match get_file_size(new_file) {
        Ok(size) => size,
        Err(error) => return Err(error),
    };
    let patch_size: u64 = match get_file_size(patch_file) {
        Ok(size) => size,
        Err(error) => return Err(error),
    };
    Ok(
        CompressionRatio {
            old_size,
            new_size,
            patch_size,
            ratio: Percent::of(old_size, new_size, patch_size),
        },
    )
}

/// The entry of the scratch location that a verification applies to.
pub open spec fn scratch() -> FileEntryView {
    FileEntryView { path: Seq::empty(), state: FileStateView::Missing }
}

/// Whether `patch` makes the content of `new` out of `old`, or the error
/// that keeps the question open: that of reading `new`, else that of
/// applying `patch` to `old`.
pub open spec fn verify_outcome(old: FileEntryView, new: FileEntryView, patch: FileEntryView) -> Result<
    bool,
    PatchErrorView,
> {
    match new.access_error(FileRole::New) {
        Some(error) => Err(error),
        None => match patch_outcome(old, patch, scratch()) {
            Ok(bytes) => Ok(bytes == new.contents()),
            Err(error) => Err(error),
        },
    }
}

/// Whether two byte strings are the same.
pub fn same_bytes(left: &[u8], right: &[u8]) -> (same: bool)
    ensures
        same == (left@ == right@),
{
    if left.len() != right.len() {
        return false;
    }
    let mut at: usize = 0;
    while at < left.len()
        invariant
            left.len() == right.len(),
            at <= left.len(),
            left@.subrange(0, at as int) == right@.subrange(0, at as int),
        decreases left.len() - at,
    {
        if left[at] != right[at] {
            return false;
        }
        proof {
            assert(left@.subrange(0, at + 1) == left@.subrange(0, at as int).push(left@[at as int]));
            assert(right@.subrange(0, at + 1) == right@.subrange(0, at as int).push(
                right@[at as int],
            ));
        }
        at = at + 1;
    }
    proof {
        assert(left@ == left@.subrange(0, at as int));
        assert(right@ == right@.subrange(0, at as int));
    }
    true
}

/// Checks that `patch_file` makes the content of `new_file` out of
/// `old_file`.
///
/// Applies the patch to a scratch entry of its own, which no caller sees
/// and which is gone when the call returns, and compares what it holds
/// with `new_file` byte for byte. A difference is no error: the answer is
/// `false`. Fails with the error of reading `new_file`, else with the error
/// of [`BsdiffRust::patch`], exactly when there is one. None of the three
/// files is changed.
pub fn verify_patch(old_file: &FileEntry, new_file: &FileEntry, patch_file: &FileEntry) -> (result:
    Result<bool, PatchError>)
    ensures
        match verify_outcome(old_file@, new_file@, patch_file@) {
            Ok(same) => result == Ok::<bool, PatchError>(same),
            Err(error) => result is Err && result->Err_0@ == error,
        },
{
    let expected = match new_file.read(FileRole::New) {
        Ok(contents) => contents,
        Err(error) => return Err(error),
    };
    let mut scratch = FileEntry { path: String::new(), state: FileState::Missing };
    match BsdiffRust::patch(old_file, &mut scratch, patch_file) {
        Ok(_) => {},
        Err(error) => return Err(error),
    }
    let produced = match scratch.read(FileRole::New) {
        Ok(contents) => contents,
        Err(error) => return Err(error),
    };
    Ok(same_bytes(produced.as_slice(), expected.as_slice()))
}

} // verus!
