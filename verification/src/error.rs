//! The ways in which an update can fail.

use vstd::prelude::*;

verus! {

/// Why a step of the update failed.
#[derive(Debug, Clone, Copy, PartialEq, Eq, Structural)]
pub enum UpdateError {
    /// A source could not be reached, answered with a failure, or sent a
    /// body that is no release list.
    FetchError,
    /// A source is not written as `owner/project`.
    InvalidSourceFormat,
    /// No source listed a release.
    NoReleasesFound,
    /// The asset's name ends in none of the supported suffixes.
    UnsupportedAssetFormat,
    /// The archive was read to its end and holds no entry named like the
    /// executable.
    BinaryNotFoundInArchive,
    /// The asset's bytes cannot be decoded.
    CorruptArchive,
    /// The file system refused a step of the replacement.
    ReplaceError,
}

} // verus!
