//! The layout of a patch file.
//!
//! A patch starts with a header of 32 bytes: the magic constant in bytes
//! 0 to 7, then three lengths of eight bytes each, least significant byte
//! first. The first two give the sizes of the compressed control and diff
//! blocks that follow the header; the third gives the size of the
//! reconstructed file, with the top bit of its last byte as a sign.
//! The compressed extra block takes the rest of the file.

use vstd::prelude::*;

verus! {

/// Length of the patch header in bytes.
pub const HEADER_LEN: usize = 32;

/// Length of the magic constant in bytes.
pub const MAGIC_LEN: usize = 8;

/// The magic constant `BSDIFF40`.
pub open spec fn magic() -> Seq<u8> {
    seq![0x42u8, 0x53u8, 0x44u8, 0x49u8, 0x46u8, 0x46u8, 0x34u8, 0x30u8]
}

/// Whether `bytes` begins with the magic constant.
pub open spec fn has_magic(bytes: Seq<u8>) -> bool {
    bytes.len() >= MAGIC_LEN && bytes.subrange(0, MAGIC_LEN as int) == magic()
}

/// The number that the eight bytes from `at` on spell, least significant
/// byte first.
pub open spec fn le_u64(bytes: Seq<u8>, at: int) -> int {
    bytes[at] + 0x100 * (bytes[at + 1] + 0x100 * (bytes[at + 2] + 0x100 * (bytes[at + 3] + 0x100
        * (bytes[at + 4] + 0x100 * (bytes[at + 5] + 0x100 * (bytes[at + 6] + 0x100 * bytes[at
        + 7]))))))
}

/// Declared length of the compressed control block.
pub open spec fn control_len(patch: Seq<u8>) -> int {
    le_u64(patch, 8)
}

/// Declared length of the compressed diff block.
pub open spec fn diff_len(patch: Seq<u8>) -> int {
    le_u64(patch, 16)
}

/// Declared length of the reconstructed file: the magnitude of the third
/// header field, or `None` where its sign bit is set.
pub open spec fn size_hint(patch: Seq<u8>) -> Option<u64> {
    if le_u64(patch, 24) < 0x8000_0000_0000_0000 {
        Some(le_u64(patch, 24) as u64)
    } else {
        None
    }
}

/// What makes a byte sequence fail as a patch header.
#[derive(Clone, Copy, Debug, PartialEq, Eq, Structural)]
pub enum FormatDefect {
    /// Fewer bytes than a header has.
    TooShort,
    /// The first eight bytes are not the magic constant.
    BadMagic,
    /// The control and diff blocks that the header declares do not fit in
    /// the bytes that follow it.
    BlocksExceedPatch,
}

/// The first defect of `patch` as a header, or `None` for a well-formed one.
pub open spec fn header_defect(patch: Seq<u8>) -> Option<FormatDefect> {
    if patch.len() < HEADER_LEN {
        Some(FormatDefect::TooShort)
    } else if !has_magic(patch) {
        Some(FormatDefect::BadMagic)
    } else if HEADER_LEN + control_len(patch) + diff_len(patch) > patch.len() {
        Some(FormatDefect::BlocksExceedPatch)
    } else {
        None
    }
}

/// A patch whose header is complete, carries the magic constant and
/// declares blocks that fit.
pub open spec fn well_formed(patch: Seq<u8>) -> bool {
    header_defect(patch) is None
}

/// The three lengths that a well-formed header declares.
#[derive(Clone, Copy, Debug, PartialEq, Eq, Structural)]
pub struct PatchHeader {
    /// Length of the compressed control block.
    pub control_len: u64,
    /// Length of the compressed diff block.
    pub diff_len: u64,
    /// Length of the reconstructed file, where the header gives one.
    pub size_hint: Option<u64>,
}

/// The header that a well-formed `patch` carries.
pub open spec fn header_of(patch: Seq<u8>) -> PatchHeader {
    PatchHeader {
        control_len: control_len(patch) as u64,
        diff_len: diff_len(patch) as u64,
        size_hint: size_hint(patch),
    }
}

/// Whether `bytes` begins with the magic constant.
pub fn starts_with_magic(bytes: &[u8]) -> (found: bool)
    ensures
        found == has_magic(bytes@),
{
    if bytes.len() < MAGIC_LEN {
        return false;
    }
    let found = bytes[0] == 0x42 && bytes[1] == 0x53 && bytes[2] == 0x44 && bytes[3] == 0x49
        && bytes[4] == 0x46 && bytes[5] == 0x46 && bytes[6] == 0x34 && bytes[7] == 0x30;
    proof {
        let head = bytes@.subrange(0, MAGIC_LEN as int);
        if found {
            assert(head =~= magic());
        } else {
            assert(head[0] == bytes@[0] && head[1] == bytes@[1] && head[2] == bytes@[2]
                && head[3] == bytes@[3] && head[4] == bytes@[4] && head[5] == bytes@[5]
                && head[6] == bytes@[6] && head[7] == bytes@[7]);
        }
    }
    found
}

/// Reads the eight bytes from `at` on as a number, least significant byte
/// first.
fn read_le_u64(bytes: &[u8], at: usize) -> (value: u64)
    requires
        at + 8 <= bytes.len(),
    ensures
        value == le_u64(bytes@, at as int),
{
    let mut value: u64 = bytes[at + 7] as u64;
    value = value * 0x100 + bytes[at + 6] as u64;
    value = value * 0x100 + bytes[at + 5] as u64;
    value = value * 0x100 + bytes[at + 4] as u64;
    value = value * 0x100 + bytes[at + 3] as u64;
    value = value * 0x100 + bytes[at + 2] as u64;
    value = value * 0x100 + bytes[at + 1] as u64;
    value = value * 0x100 + bytes[at] as u64;
    value
}

impl PatchHeader {
    /// Reads the header of `patch`.
    ///
    /// Fails with the first defect of the header, in the order of
    /// [`header_defect`], exactly when there is one.
    pub fn parse(patch: &[u8]) -> (parsed: Result<PatchHeader, FormatDefect>)
        ensures
            match header_defect(patch@) {
                Some(defect) => parsed == Err::<PatchHeader, FormatDefect>(defect),
                None => parsed == Ok::<PatchHeader, FormatDefect>(header_of(patch@)),
            },
    {
        if patch.len() < HEADER_LEN {
            return Err(FormatDefect::TooShort);
        }
        if !starts_with_magic(patch) {
            return Err(FormatDefect::BadMagic);
        }
        let control_len: u64 = read_le_u64(patch, 8);
        let diff_len: u64 = read_le_u64(patch, 16);
        let raw_size: u64 = read_le_u64(patch, 24);
        let body: u64 = (patch.len() - HEADER_LEN) as u64;
        if control_len > body || diff_len > body - control_len {
            return Err(FormatDefect::BlocksExceedPatch);
        }
        let size_hint: Option<u64> = if raw_size < 0x8000_0000_0000_0000 {
            Some(raw_size)
        } else {
            None
        };
        Ok(PatchHeader { control_len, diff_len, size_hint })
    }
}

} // verus!
