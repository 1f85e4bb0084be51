//! The delta engine.
//!
//! The construction of a patch and its application are the work of the
//! `qbsdiff` crate. Nothing in this module is proved: each function states
//! what the library relies on.

use crate::format::{size_hint, well_formed};
use crate::options::{Parallelism, MAX_COMPRESSION_LEVEL, MIN_COMPRESSION_LEVEL};
use vstd::prelude::*;

verus! {

/// The maximum length of an old input that the engine declares. The engine
/// compares inputs below this length only: see [`compare`].
pub const MAX_INPUT_LEN: usize = 0x7fff_ffff;

/// What the engine's comparison of `old` with `new` gives at compression
/// level `level`, on several threads or on one: the bytes of the patch, or
/// the text of its failure.
pub uninterp spec fn compared(old: Seq<u8>, new: Seq<u8>, level: u32, parallel: bool) -> Result<
    Seq<u8>,
    Seq<char>,
>;

/// What the engine's application of `patch` to `old` gives: the bytes of
/// the new file, or the text of its failure.
pub uninterp spec fn applied(old: Seq<u8>, patch: Seq<u8>) -> Result<Seq<u8>, Seq<char>>;

/// An outcome of the engine as a value of specifications.
pub open spec fn outcome_view(outcome: Result<Vec<u8>, String>) -> Result<Seq<u8>, Seq<char>> {
    match outcome {
        Ok(bytes) => Ok(bytes@),
        Err(cause) => Err(cause@),
    }
}

/// `qbsdiff::bsdiff::MAX_LENGTH`: the longest source that the engine
/// indexes, which is the largest `i32`.
#[verifier::external_body]
pub(crate) fn max_input_len() -> (limit: usize)
    ensures
        limit == MAX_INPUT_LEN,
{
    qbsdiff::bsdiff::MAX_LENGTH
}

/// `qbsdiff::Bsdiff::compare`, on a comparison set up by `Bsdiff::new`,
/// `compression_level` and `parallel_scheme`, writing to memory.
///
/// The engine panics on a source longer than its declared maximum, and
/// its suffix sorter on one of exactly that length; it panics on level 0
/// and takes every level above 9 for 9. So callers keep the source below
/// the maximum and the level from 1 to 9. For given inputs it always
/// writes the same bytes: the threads work on chunks of a fixed size and
/// their results are joined in order. A patch that it writes starts with
/// the header of 32 bytes, which declares the two blocks that follow it
/// and, in its third field, the length of `new`.
#[verifier::external_body]
pub(crate) fn compare(old: &[u8], new: &[u8], level: u32, scheme: Parallelism) -> (outcome: Result<
    Vec<u8>,
    String,
>)
    requires
        old.len() < MAX_INPUT_LEN,
        MIN_COMPRESSION_LEVEL <= level <= MAX_COMPRESSION_LEVEL,
    ensures
        outcome_view(outcome) == compared(old@, new@, level, scheme is Auto),
        outcome matches Ok(patch) ==> well_formed(patch@),
        outcome matches Ok(patch) ==> size_hint(patch@) == Some(new@.len() as u64),
{
    let scheme = match scheme {
        Parallelism::Never => qbsdiff::ParallelScheme::Never,
        Parallelism::Auto => qbsdiff::ParallelScheme::Auto,
    };
    let mut patch = Vec::new();
    let written = qbsdiff::Bsdiff::new(old, new)
        .compression_level(level)
        .parallel_scheme(scheme)
        .compare(std::io::Cursor::new(&mut patch));
    match written {
        Ok(_) => Ok(patch),
        Err(error) => Err(error.to_string()),
    }
}

/// `qbsdiff::Bspatch::apply`, on a patcher made by `Bspatch::new`, writing
/// to `target` from its start.
///
/// The engine adds the lengths of the header without a check, so callers
/// hand it a patch with a well-formed header only. What it writes depends
/// on `old` and `patch` alone; after a failure nothing of it is kept.
#[verifier::external_body]
pub(crate) fn apply(old: &[u8], patch: &[u8], target: Vec<u8>) -> (outcome: Result<Vec<u8>, String>)
    requires
        well_formed(patch@),
        target@.len() == 0,
    ensures
        outcome_view(outcome) == applied(old@, patch@),
{
    let mut target = target;
    let patcher = match qbsdiff::Bspatch::new(patch) {
        Ok(patcher) => patcher,
        Err(error) => return Err(error.to_string()),
    };
    match patcher.apply(old, std::io::Cursor::new(&mut target)) {
        Ok(_) => Ok(target),
        Err(error) => Err(error.to_string()),
    }
}

} // verus!
