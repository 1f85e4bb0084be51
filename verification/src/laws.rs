//! What holds of the operations on every input.

use crate::bsdiff_rust::{diff_outcome, patch_outcome, settled};
use crate::engine::{applied, MAX_INPUT_LEN};
use crate::error::{FileRole, PatchError, PatchErrorView};
use crate::file::{FileEntry, FileEntryView};
use crate::format::{has_magic, header_defect, magic, well_formed, MAGIC_LEN};
use crate::options::DiffOptions;
use crate::stats::{ratio_of, PerformanceStats};
use crate::utils::{scratch, verify_outcome};
use vstd::prelude::*;

verus! {

/// The ratio is the size of the patch over the sizes of the old and the
/// new file together, times one hundred; it is zero where both are empty.
pub proof fn lemma_ratio_law(old_size: u64, new_size: u64, patch_size: u64)
    ensures
        ratio_of(old_size, new_size, patch_size).denominator > 0,
        old_size + new_size > 0 ==> ratio_of(old_size, new_size, patch_size).numerator * (old_size
            + new_size) == patch_size * 100 * ratio_of(
            old_size,
            new_size,
            patch_size,
        ).denominator,
        old_size + new_size == 0 ==> ratio_of(old_size, new_size, patch_size).numerator == 0,
{
}

/// Statistics of two empty files report a ratio of zero, whatever the size
/// of the patch.
pub proof fn lemma_empty_files_have_zero_ratio(stats: PerformanceStats)
    requires
        stats.consistent(),
        stats.old_size == 0,
        stats.new_size == 0,
    ensures
        stats.compression_ratio.numerator == 0,
        stats.compression_ratio.denominator == 1,
{
}

/// A file counts as a compressed patch exactly when it has at least eight
/// bytes and the first eight are `BSDIFF40`.
pub proof fn lemma_magic_is_first_eight_bytes(bytes: Seq<u8>)
    ensures
        has_magic(bytes) <==> bytes.len() >= 8 && bytes[0] == 0x42 && bytes[1] == 0x53 && bytes[2]
            == 0x44 && bytes[3] == 0x49 && bytes[4] == 0x46 && bytes[5] == 0x46 && bytes[6]
            == 0x34 && bytes[7] == 0x30,
{
    if bytes.len() >= 8 {
        let head = bytes.subrange(0, MAGIC_LEN as int);
        assert(head[0] == bytes[0] && head[1] == bytes[1] && head[2] == bytes[2] && head[3]
            == bytes[3] && head[4] == bytes[4] && head[5] == bytes[5] && head[6] == bytes[6]
            && head[7] == bytes[7]);
        if bytes[0] == 0x42 && bytes[1] == 0x53 && bytes[2] == 0x44 && bytes[3] == 0x49
            && bytes[4] == 0x46 && bytes[5] == 0x46 && bytes[6] == 0x34 && bytes[7] == 0x30 {
            assert(head =~= magic());
        }
    }
}

/// A verification answers `true` exactly when the new file can be read and
/// applying the patch to the old file gives its bytes.
pub proof fn lemma_verify_is_apply_and_compare(
    old: FileEntryView,
    new: FileEntryView,
    patch: FileEntryView,
)
    ensures
        verify_outcome(old, new, patch) == Ok::<bool, PatchErrorView>(true) <==> new.state
            is Readable && patch_outcome(old, patch, scratch()) == Ok::<Seq<u8>, PatchErrorView>(
            new.contents(),
        ),
        verify_outcome(old, new, patch) == Ok::<bool, PatchErrorView>(false) <==> new.state
            is Readable && patch_outcome(old, patch, scratch()) is Ok && patch_outcome(
            old,
            patch,
            scratch(),
        )->Ok_0 != new.contents(),
{
}

/// Where the target is no obstacle, a verification fails exactly when
/// reading the new file or applying the patch does.
pub proof fn lemma_verify_fails_as_apply_does(
    old: FileEntryView,
    new: FileEntryView,
    patch: FileEntryView,
    target: FileEntryView,
)
    requires
        !(target.state is NotAFile),
    ensures
        verify_outcome(old, new, patch) is Err <==> !(new.state is Readable) || patch_outcome(
            old,
            patch,
            target,
        ) is Err,
{
}

/// Applying bytes whose header has a defect fails with `FormatError` for
/// that defect, and leaves the target as it was.
pub proof fn lemma_malformed_patch_is_rejected(
    old: FileEntryView,
    patch: FileEntryView,
    result: Result<(), PatchError>,
    before: FileEntry,
    after: FileEntry,
)
    requires
        old.state is Readable,
        patch.state is Readable,
        !well_formed(patch.contents()),
        settled(patch_outcome(old, patch, before@), result, before, after),
    ensures
        result is Err,
        result->Err_0@ == (PatchErrorView::FormatError {
            defect: header_defect(patch.contents())->Some_0,
        }),
        after == before,
{
}

/// Every failure of applying a patch leaves the target as it was.
pub proof fn lemma_failed_patch_writes_nothing(
    old: FileEntryView,
    patch: FileEntryView,
    result: Result<(), PatchError>,
    before: FileEntry,
    after: FileEntry,
)
    requires
        settled(patch_outcome(old, patch, before@), result, before, after),
        result is Err,
    ensures
        after == before,
{
}

/// An old input longer than the maximum that the engine declares, or of
/// exactly that length, is refused with `InputTooLarge`, which carries its
/// length and that maximum, whatever the new input holds, the options say
/// or the engine would do; the patch stays as it was.
pub proof fn lemma_oversized_input_is_rejected(
    old: FileEntryView,
    new: FileEntryView,
    options: DiffOptions,
    result: Result<(), PatchError>,
    before: FileEntry,
    after: FileEntry,
)
    requires
        old.state is Readable,
        new.state is Readable,
        old.contents().len() >= MAX_INPUT_LEN,
        settled(diff_outcome(old, new, before@, options), result, before, after),
    ensures
        result is Err,
        result->Err_0@ == (PatchErrorView::InputTooLarge {
            actual: old.contents().len() as u64,
            max: MAX_INPUT_LEN as u64,
        }),
        after == before,
{
}

/// A diff of a missing old file fails with `NotFound` for the old file,
/// and one of a missing new file beside an existing old one with
/// `NotFound` for the new file.
pub proof fn lemma_missing_input_is_named(
    old: FileEntryView,
    new: FileEntryView,
    target: FileEntryView,
    options: DiffOptions,
)
    ensures
        old.state is Missing ==> diff_outcome(old, new, target, options) == Err::<
            Seq<u8>,
            PatchErrorView,
        >(PatchErrorView::NotFound { role: FileRole::Old, path: old.path }),
        !(old.state is Missing) && new.state is Missing ==> diff_outcome(
            old,
            new,
            target,
            options,
        ) == Err::<Seq<u8>, PatchErrorView>(
            PatchErrorView::NotFound { role: FileRole::New, path: new.path },
        ),
{
}

/// A diff followed by applying its patch gives back the new content
/// wherever the engine's application undoes its comparison: the library
/// puts nothing in the way of a patch that it wrote itself.
pub proof fn lemma_round_trip_rests_on_the_engine(
    old: FileEntryView,
    new: FileEntryView,
    patch: FileEntryView,
    target: FileEntryView,
    options: DiffOptions,
    written: Seq<u8>,
)
    requires
        diff_outcome(old, new, patch, options) == Ok::<Seq<u8>, PatchErrorView>(written),
        well_formed(written),
        applied(old.contents(), written) == Ok::<Seq<u8>, Seq<char>>(new.contents()),
        !(target.state is NotAFile),
    ensures
        patch_outcome(old, patch.written(written), target) == Ok::<Seq<u8>, PatchErrorView>(
            new.contents(),
        ),
        verify_outcome(old, new, patch.written(written)) == Ok::<bool, PatchErrorView>(true),
{
}

} // verus!
