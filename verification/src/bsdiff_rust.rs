//! Producing and applying patches.

use crate::engine::{applied, apply, compare, compared, max_input_len, outcome_view, MAX_INPUT_LEN};
use crate::error::{FileRole, PatchError, PatchErrorView};
use crate::file::{FileEntry, FileEntryView};
use crate::format::{header_defect, size_hint, well_formed, PatchHeader};
use crate::options::{engine_level, DiffOptions};
use crate::stats::{PerformanceStats, Stopwatch};
use crate::utils::get_file_size;
use vstd::prelude::*;

verus! {

/// Why two inputs cannot both be read: a missing one before any other
/// failure, and within each kind the first input before the second.
pub open spec fn pair_rejection(
    first: FileEntryView,
    first_role: FileRole,
    second: FileEntryView,
    second_role: FileRole,
) -> Option<PatchErrorView> {
    if first.state is Missing {
        first.access_error(first_role)
    } else if second.state is Missing {
        second.access_error(second_role)
    } else if first.access_error(first_role) is Some {
        first.access_error(first_role)
    } else {
        second.access_error(second_role)
    }
}

/// Why an old input of `len` bytes cannot be compared: it is longer than
/// the maximum that the engine declares, or exactly that long, which the
/// engine does not take either.
pub open spec fn size_rejection(len: nat) -> Option<PatchErrorView> {
    if len >= MAX_INPUT_LEN {
        Some(PatchErrorView::InputTooLarge { actual: len as u64, max: MAX_INPUT_LEN as u64 })
    } else {
        None
    }
}

/// Why a diff of `old` and `new` is refused before the engine compares.
pub open spec fn diff_rejection(old: FileEntryView, new: FileEntryView) -> Option<PatchErrorView> {
    if pair_rejection(old, FileRole::Old, new, FileRole::New) is Some {
        pair_rejection(old, FileRole::Old, new, FileRole::New)
    } else {
        size_rejection(old.contents().len())
    }
}

/// Why `patch` is not applied to `old`, before the engine runs.
pub open spec fn patch_rejection(old: FileEntryView, patch: FileEntryView) -> Option<
    PatchErrorView,
> {
    if pair_rejection(old, FileRole::Old, patch, FileRole::Patch) is Some {
        pair_rejection(old, FileRole::Old, patch, FileRole::Patch)
    } else {
        match header_defect(patch.contents()) {
            Some(defect) => Some(PatchErrorView::FormatError { defect }),
            None => None,
        }
    }
}

/// What writing `bytes` to `target` gives: the bytes, unless the target is
/// something that is not a regular file.
pub open spec fn write_outcome(target: FileEntryView, bytes: Seq<u8>) -> Result<
    Seq<u8>,
    PatchErrorView,
> {
    if target.state is NotAFile {
        Err(PatchErrorView::NotAFile { path: target.path })
    } else {
        Ok(bytes)
    }
}

/// What becomes of a patch that the engine `produced` for `target`.
pub open spec fn patch_stored(produced: Result<Seq<u8>, Seq<char>>, target: FileEntryView) -> Result<
    Seq<u8>,
    PatchErrorView,
> {
    match produced {
        Ok(bytes) => write_outcome(target, bytes),
        Err(cause) => Err(PatchErrorView::IoError { path: target.path, cause }),
    }
}

/// What becomes of the new content that the engine `produced` for `target`.
pub open spec fn output_stored(produced: Result<Seq<u8>, Seq<char>>, target: FileEntryView) -> Result<
    Seq<u8>,
    PatchErrorView,
> {
    match produced {
        Ok(bytes) => write_outcome(target, bytes),
        Err(reason) => Err(PatchErrorView::ApplyError { reason }),
    }
}

/// The bytes that a diff of `old` and `new` writes to `target`, or the
/// error with which it fails.
pub open spec fn diff_outcome(
    old: FileEntryView,
    new: FileEntryView,
    target: FileEntryView,
    options: DiffOptions,
) -> Result<Seq<u8>, PatchErrorView> {
    match diff_rejection(old, new) {
        Some(error) => Err(error),
        None => patch_stored(
            compared(
                old.contents(),
                new.contents(),
                engine_level(options.compression_level),
                options.enable_parallel,
            ),
            target,
        ),
    }
}

/// The bytes that applying `patch` to `old` writes to `target`, or the
/// error with which it fails.
pub open spec fn patch_outcome(old: FileEntryView, patch: FileEntryView, target: FileEntryView) -> Result<
    Seq<u8>,
    PatchErrorView,
> {
    match patch_rejection(old, patch) {
        Some(error) => Err(error),
        None => output_stored(applied(old.contents(), patch.contents()), target),
    }
}

/// Whether an operation with the given `outcome` ended with `result` and
/// took `target` from `before` to `after`: on success the target holds the
/// bytes, on failure it is as it was.
pub open spec fn settled(
    outcome: Result<Seq<u8>, PatchErrorView>,
    result: Result<(), PatchError>,
    before: FileEntry,
    after: FileEntry,
) -> bool {
    match outcome {
        Ok(bytes) => result is Ok && after@ == before@.written(bytes),
        Err(error) => result is Err && result->Err_0@ == error && after == before,
    }
}

/// Whether an operation with the given `outcome` ended with `result`, took
/// `target` from `before` to `after`, and reports the sizes of the three
/// files as they are after it.
pub open spec fn measured(
    outcome: Result<Seq<u8>, PatchErrorView>,
    result: Result<PerformanceStats, PatchError>,
    before: FileEntry,
    after: FileEntry,
    old_size: nat,
    new_size: nat,
    patch_size: nat,
) -> bool {
    match outcome {
        Ok(bytes) => {
            &&& after@ == before@.written(bytes)
            &&& result matches Ok(stats)
            &&& stats.old_size == old_size
            &&& stats.new_size == new_size
            &&& stats.patch_size == patch_size
            &&& stats.consistent()
        },
        Err(error) => result is Err && result->Err_0@ == error && after == before,
    }
}

/// The length to which the output buffer is pre-sized for a header's size
/// hint: the hint itself, unless it is missing or larger than the longest
/// input that the engine compares.
pub open spec fn presized(hint: Option<u64>) -> usize {
    match hint {
        Some(size) if size <= MAX_INPUT_LEN => size as usize,
        _ => 0,
    }
}

/// The operations that produce and apply patches.
pub struct BsdiffRust;

impl BsdiffRust {
    /// Reads two inputs of an operation.
    ///
    /// Fails as [`pair_rejection`] says, exactly when one of them cannot be
    /// read.
    fn read_pair<'a>(
        first: &'a FileEntry,
        first_role: FileRole,
        second: &'a FileEntry,
        second_role: FileRole,
    ) -> (outcome: Result<(&'a Vec<u8>, &'a Vec<u8>), PatchError>)
        ensures
            match outcome {
                Ok((first_bytes, second_bytes)) => {
                    &&& pair_rejection(first@, first_role, second@, second_role) is None
                    &&& first_bytes@ == first@.contents()
                    &&& second_bytes@ == second@.contents()
                },
                Err(error) => pair_rejection(first@, first_role, second@, second_role) == Some(
                    error@,
                ),
            },
    {
        if first.is_missing() {
            return Err(PatchError::NotFound { role: first_role, path: first.path.clone() });
        }
        if second.is_missing() {
            return Err(PatchError::NotFound { role: second_role, path: second.path.clone() });
        }
        let first_bytes = match first.read(first_role) {
            Ok(bytes) => bytes,
            Err(error) => return Err(error),
        };
        let second_bytes = match second.read(second_role) {
            Ok(bytes) => bytes,
            Err(error) => return Err(error),
        };
        Ok((first_bytes, second_bytes))
    }

    /// Checks the length of an old input against the engine's limit.
    ///
    /// Fails with `InputTooLarge`, which carries the length and the
    /// maximum that the engine declares, exactly when the length is that
    /// maximum or above it. The engine compares inputs below its declared
    /// maximum only.
    pub fn check_input_size(len: usize) -> (outcome: Result<(), PatchError>)
        ensures
            match outcome {
                Ok(_) => size_rejection(len as nat) is None,
                Err(error) => size_rejection(len as nat) == Some(error@),
            },
    {
        let limit: usize = max_input_len();
        if len >= limit {
            Err(PatchError::InputTooLarge { actual: len as u64, max: limit as u64 })
        } else {
            Ok(())
        }
    }

    /// Writes `bytes` to `target`, unless the target is something that is
    /// not a regular file.
    fn write_to(target: &mut FileEntry, bytes: Vec<u8>) -> (result: Result<(), PatchError>)
        ensures
            settled(write_outcome(old(target)@, bytes@), result, *old(target), *final(target)),
    {
        if target.is_not_a_file() {
            Err(PatchError::NotAFile { path: target.path.clone() })
        } else {
            target.write(bytes);
            Ok(())
        }
    }

    /// Stores the patch that the engine produced in `patch_file`.
    ///
    /// A failure of the engine becomes an `IoError` for the patch's path.
    /// Bytes that it produced are written to `patch_file`, unless that is
    /// something other than a regular file, which fails with `NotAFile`.
    /// On every failure `patch_file` stays as it was.
    pub fn store_patch(produced: Result<Vec<u8>, String>, patch_file: &mut FileEntry) -> (result: Result<
        (),
        PatchError,
    >)
        ensures
            settled(
                patch_stored(outcome_view(produced), old(patch_file)@),
                result,
                *old(patch_file),
                *final(patch_file),
            ),
    {
        match produced {
            Ok(bytes) => Self::write_to(patch_file, bytes),
            Err(cause) => Err(PatchError::IoError { path: patch_file.path.clone(), cause }),
        }
    }

    /// Stores the content that the engine reconstructed in `new_file`.
    ///
    /// A failure of the engine becomes an `ApplyError`. Bytes that it
    /// produced are written to `new_file`, unless that is something other than
    /// a regular file, which fails with `NotAFile`. On every failure `new_file`
    /// stays as it was.
    pub fn store_output(produced: Result<Vec<u8>, String>, new_file: &mut FileEntry) -> (result: Result<
        (),
        PatchError,
    >)
        ensures
            settled(
                output_stored(outcome_view(produced), old(new_file)@),
                result,
                *old(new_file),
                *final(new_file),
            ),
    {
        match produced {
            Ok(bytes) => Self::write_to(new_file, bytes),
            Err(reason) => Err(PatchError::ApplyError { reason }),
        }
    }

    /// The capacity with which the output buffer starts for a header's
    /// size hint.
    ///
    /// The hint only saves reallocations: the buffer grows as the output
    /// does. A hint above the longest input that the engine compares is
    /// not trusted with an allocation.
    pub fn presize(hint: Option<u64>) -> (capacity: usize)
        ensures
            capacity == presized(hint),
    {
        let limit: usize = max_input_len();
        match hint {
            Some(size) => if size <= limit as u64 {
                size as usize
            } else {
                0
            },
            None => 0,
        }
    }

    /// Writes to `patch_file` the patch that leads from `old_file` to `new_file`, with the
    /// default options.
    ///
    /// Behaves as [`BsdiffRust::diff_with_options`] does with
    /// [`DiffOptions::default`].
    pub fn diff(old_file: &FileEntry, new_file: &FileEntry, patch_file: &mut FileEntry) -> (result: Result<
        (),
        PatchError,
    >)
        ensures
            settled(
                diff_outcome(old_file@, new_file@, old(patch_file)@, DiffOptions::defaults()),
                result,
                *old(patch_file),
                *final(patch_file),
            ),
            result is Ok ==> well_formed(final(patch_file)@.contents()),
            result is Ok ==> size_hint(final(patch_file)@.contents()) == Some(
                new_file@.contents().len() as u64,
            ),
    {
        let options = DiffOptions::default();
        Self::diff_with_options(old_file, new_file, patch_file, &options)
    }

    /// Writes to `patch_file` the patch that leads from `old_file` to `new_file`.
    ///
    /// Fails, in this order: with `NotFound` where `old_file` is missing, then
    /// where `new_file` is; with `NotAFile` or `IoError` where `old_file` cannot be
    /// read, then where `new_file` cannot; with `InputTooLarge` where `old_file` is
    /// as long as the engine's declared maximum or longer, before the engine
    /// is called; with
    /// `IoError` where the engine fails; with `NotAFile` where `patch_file` is
    /// something other than a regular file. On every failure `patch_file` stays
    /// as it was. Otherwise `patch_file` holds what the engine produced for the
    /// two contents, the level of [`DiffOptions::engine_level`] and the
    /// scheme of [`DiffOptions::parallelism`], which is a patch with a
    /// well-formed header whose third field is the length of `new_file`.
    pub fn diff_with_options(
        old_file: &FileEntry,
        new_file: &FileEntry,
        patch_file: &mut FileEntry,
        options: &DiffOptions,
    ) -> (result: Result<(), PatchError>)
        ensures
            settled(
                diff_outcome(old_file@, new_file@, old(patch_file)@, *options),
                result,
                *old(patch_file),
                *final(patch_file),
            ),
            result is Ok ==> well_formed(final(patch_file)@.contents()),
            result is Ok ==> size_hint(final(patch_file)@.contents()) == Some(
                new_file@.contents().len() as u64,
            ),
    {
        let (old_bytes, new_bytes) = match Self::read_pair(
            old_file,
            FileRole::Old,
            new_file,
            FileRole::New,
        ) {
            Ok(pair) => pair,
            Err(error) => return Err(error),
        };
        match Self::check_input_size(old_bytes.len()) {
            Ok(_) => {},
            Err(error) => return Err(error),
        }
        let produced = compare(
            old_bytes.as_slice(),
            new_bytes.as_slice(),
            options.engine_level(),
            options.parallelism(),
        );
        Self::store_patch(produced, patch_file)
    }

    /// Writes to `new_file` the content that `patch_file` makes of `old_file`.
    ///
    /// Fails, in this order: with `NotFound` where `old_file` is missing, then
    /// where `patch_file` is; with `NotAFile` or `IoError` where `old_file` cannot be
    /// read, then where `patch_file` cannot; with `FormatError` where the header
    /// of the patch has a defect, before the engine is called; with
    /// `ApplyError` where the engine fails; with `NotAFile` where `new_file` is
    /// something other than a regular file. On every failure `new_file` stays as
    /// it was. Otherwise `new_file` holds what the engine made of the two
    /// contents.
    pub fn patch(old_file: &FileEntry, new_file: &mut FileEntry, patch_file: &FileEntry) -> (result: Result<
        (),
        PatchError,
    >)
        ensures
            settled(patch_outcome(old_file@, patch_file@, old(new_file)@), result, *old(new_file), *final(new_file)),
    {
        let (old_bytes, patch_bytes) = match Self::read_pair(
            old_file,
            FileRole::Old,
            patch_file,
            FileRole::Patch,
        ) {
            Ok(pair) => pair,
            Err(error) => return Err(error),
        };
        let header = match PatchHeader::parse(patch_bytes.as_slice()) {
            Ok(header) => header,
            Err(defect) => return Err(PatchError::FormatError { defect }),
        };
        let buffer: Vec<u8> = Vec::with_capacity(Self::presize(header.size_hint));
        let produced = apply(old_bytes.as_slice(), patch_bytes.as_slice(), buffer);
        Self::store_output(produced, new_file)
    }

    /// The statistics of an operation that took `elapsed_millis`
    /// milliseconds, with the sizes of the three files as they are now.
    ///
    /// Fails with the error of [`get_file_size`] for the first of `old_file`,
    /// `new_file` and `patch_file` that cannot be read, exactly when there is one.
    pub fn measure(elapsed_millis: u128, old_file: &FileEntry, new_file: &FileEntry, patch_file: &FileEntry) -> (result:
        Result<PerformanceStats, PatchError>)
        ensures
            match result {
                Ok(stats) => {
                    &&& old_file@.state is Readable
                    &&& new_file@.state is Readable
                    &&& patch_file@.state is Readable
                    &&& stats.elapsed_ms == elapsed_millis % 0x1_0000_0000_0000_0000
                    &&& stats.old_size == old_file@.contents().len()
                    &&& stats.new_size == new_file@.contents().len()
                    &&& stats.patch_size == patch_file@.contents().len()
                    &&& stats.consistent()
                },
                Err(error) => Some(error@) == if old_file@.access_error(FileRole::Any) is Some {
                    old_file@.access_error(FileRole::Any)
                } else if new_file@.access_error(FileRole::Any) is Some {
                    new_file@.access_error(FileRole::Any)
                } else {
                    patch_file@.access_error(FileRole::Any)
                },
            },
    {
        let old_size: u64 = match get_file_size(old_file) {
            Ok(size) => size,
            Err(error) => return Err(error),
        };
        let new_size: u64 = match get_file_size(new_file) {
            Ok(size) => size,
            Err(error) => return Err(error),
        };
        let patch_size: u64 = match get_file_size(patch_file) {
            Ok(size) => size,
            Err(error) => return Err(error),
        };
        Ok(PerformanceStats::new(elapsed_millis, old_size, new_size, patch_size))
    }

    /// As [`BsdiffRust::diff`], and reports what the diff took.
    ///
    /// Behaves as [`BsdiffRust::diff_with_options_and_stats`] does with
    /// [`DiffOptions::default`].
    pub fn diff_with_stats(old_file: &FileEntry, new_file: &FileEntry, patch_file: &mut FileEntry) -> (result:
        Result<PerformanceStats, PatchError>)
        ensures
            measured(
                diff_outcome(old_file@, new_file@, old(patch_file)@, DiffOptions::defaults()),
                result,
                *old(patch_file),
                *final(patch_file),
                old_file@.contents().len(),
                new_file@.contents().len(),
                final(patch_file)@.contents().len(),
            ),
            result is Ok ==> well_formed(final(patch_file)@.contents()),
            result is Ok ==> size_hint(final(patch_file)@.contents()) == Some(
                new_file@.contents().len() as u64,
            ),
    {
        let options = DiffOptions::default();
        Self::diff_with_options_and_stats(old_file, new_file, patch_file, &options)
    }

    /// As [`BsdiffRust::diff_with_options`], and reports what the diff took.
    ///
    /// Fails exactly when the diff fails, with its error and without
    /// statistics. Otherwise the statistics give the time that the whole
    /// call took and the sizes of the three files after it, measured on the
    /// entries.
    pub fn diff_with_options_and_stats(
        old_file: &FileEntry,
        new_file: &FileEntry,
        patch_file: &mut FileEntry,
        options: &DiffOptions,
    ) -> (result: Result<PerformanceStats, PatchError>)
        ensures
            measured(
                diff_outcome(old_file@, new_file@, old(patch_file)@, *options),
                result,
                *old(patch_file),
                *final(patch_file),
                old_file@.contents().len(),
                new_file@.contents().len(),
                final(patch_file)@.contents().len(),
            ),
            result is Ok ==> well_formed(final(patch_file)@.contents()),
            result is Ok ==> size_hint(final(patch_file)@.contents()) == Some(
                new_file@.contents().len() as u64,
            ),
    {
        let watch = Stopwatch::start();
        match Self::diff_with_options(old_file, new_file, patch_file, options) {
            Ok(_) => {},
            Err(error) => return Err(error),
        }
        let elapsed_millis: u128 = watch.elapsed_millis();
        Self::measure(elapsed_millis, old_file, new_file, patch_file)
    }

    /// As [`BsdiffRust::patch`], and reports what applying the patch took.
    ///
    /// Fails exactly when applying fails, with its error and without
    /// statistics. Otherwise the statistics give the time that the whole
    /// call took and the sizes of the three files after it, measured on the
    /// entries.
    pub fn patch_with_stats(old_file: &FileEntry, new_file: &mut FileEntry, patch_file: &FileEntry) -> (result:
        Result<PerformanceStats, PatchError>)
        ensures
            measured(
                patch_outcome(old_file@, patch_file@, old(new_file)@),
                result,
                *old(new_file),
                *final(new_file),
                old_file@.contents().len(),
                final(new_file)@.contents().len(),
                patch_file@.contents().len(),
            ),
    {
        let watch = Stopwatch::start();
        match Self::patch(old_file, new_file, patch_file) {
            Ok(_) => {},
            Err(error) => return Err(error),
        }
        let elapsed_millis: u128 = watch.elapsed_millis();
        Self::measure(elapsed_millis, old_file, new_file, patch_file)
    }
}

} // verus!
