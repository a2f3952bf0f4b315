//! The ways in which packaging can fail inside the library.

use vstd::prelude::*;

verus! {

/// Why a packaging operation was abandoned.
#[derive(Debug, Clone, Copy, PartialEq, Eq)]
pub enum PackagerError {
    /// The root holds no `Cores` directory.
    MissingCoresDirectory,
    /// A wildcard pattern is malformed, or a path could not be read while matching it.
    GlobPatternFailure,
    /// A path is not text, or cannot be expressed relative to the folder it was found for.
    PathEncodingFailure,
    /// A slot's base id plus the number of files matched for it exceeds the id range.
    SlotIdOverflow,
}

} // verus!
