//! Binary patches between two versions of a file, in the BSDIFF40 format.
//!
//! The library works on files as a host found them ([`FileEntry`]): it
//! validates the inputs, has the delta engine produce or apply a patch,
//! and leaves the outcome in the target entry. Reading paths into entries
//! and persisting the entries it changed is the host's part.

pub mod format;
pub mod error;
pub mod file;
pub mod options;
pub mod engine;
pub mod stats;
pub mod bsdiff_rust;
pub mod utils;
pub mod laws;
