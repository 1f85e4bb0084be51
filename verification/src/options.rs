//! The options of a diff.

use vstd::prelude::*;

verus! {

/// Compression level of a diff that names none.
pub const DEFAULT_COMPRESSION_LEVEL: u32 = 6;

/// Lowest compression level that the delta engine takes.
pub const MIN_COMPRESSION_LEVEL: u32 = 1;

/// Highest compression level that the delta engine takes.
pub const MAX_COMPRESSION_LEVEL: u32 = 9;

/// How the delta engine splits the search for matches among threads.
#[derive(Clone, Copy, Debug, PartialEq, Eq, Structural)]
pub enum Parallelism {
    /// One thread does all the work.
    Never,
    /// The engine decides how many threads to use.
    Auto,
}

/// Options of one diff.
#[derive(Clone, Copy, Debug, PartialEq, Eq, Structural)]
pub struct DiffOptions {
    /// Compression effort, from 0 to 9.
    pub compression_level: u32,
    /// Whether the engine may compare on several threads.
    pub enable_parallel: bool,
}

/// The level that the engine is given for a requested `level`: the nearest
/// one that it takes.
pub open spec fn engine_level(level: u32) -> u32 {
    if level < MIN_COMPRESSION_LEVEL {
        MIN_COMPRESSION_LEVEL
    } else if level > MAX_COMPRESSION_LEVEL {
        MAX_COMPRESSION_LEVEL
    } else {
        level
    }
}

impl DiffOptions {
    /// The options that [`DiffOptions::default`] gives.
    pub open spec fn defaults() -> DiffOptions {
        DiffOptions { compression_level: DEFAULT_COMPRESSION_LEVEL, enable_parallel: true }
    }

    /// Options in which each field that the caller left out has its default.
    pub fn from_optional(compression_level: Option<u32>, enable_parallel: Option<bool>) -> (options:
        DiffOptions)
        ensures
            options.compression_level == match compression_level {
                Some(level) => level,
                None => DEFAULT_COMPRESSION_LEVEL,
            },
            options.enable_parallel == match enable_parallel {
                Some(enabled) => enabled,
                None => true,
            },
    {
        let compression_level: u32 = match compression_level {
            Some(level) => level,
            None => DEFAULT_COMPRESSION_LEVEL,
        };
        let enable_parallel = match enable_parallel {
            Some(enabled) => enabled,
            None => true,
        };
        DiffOptions { compression_level, enable_parallel }
    }

    /// The compression level that the engine is given.
    ///
    /// The engine takes the levels 1 to 9. A level outside that range is
    /// replaced by the nearest one inside it, so level 0 compresses as
    /// level 1 does.
    pub fn engine_level(&self) -> (level: u32)
        ensures
            level == engine_level(self.compression_level),
            MIN_COMPRESSION_LEVEL <= level <= MAX_COMPRESSION_LEVEL,
    {
        if self.compression_level < MIN_COMPRESSION_LEVEL {
            MIN_COMPRESSION_LEVEL
        } else if self.compression_level > MAX_COMPRESSION_LEVEL {
            MAX_COMPRESSION_LEVEL
        } else {
            self.compression_level
        }
    }

    /// The scheme by which the engine compares: `Auto` where parallel work
    /// is enabled, `Never` where it is not.
    pub fn parallelism(&self) -> (scheme: Parallelism)
        ensures
            (scheme is Auto) == self.enable_parallel,
    {
        if self.enable_parallel {
            Parallelism::Auto
        } else {
            Parallelism::Never
        }
    }
}

impl Default for DiffOptions {
    /// Level 6, with parallel work enabled.
    fn default() -> (options: DiffOptions)
        ensures
            options == DiffOptions::defaults(),
    {
        DiffOptions { compression_level: DEFAULT_COMPRESSION_LEVEL, enable_parallel: true }
    }
}

} // verus!
