//! Fatal failures of a scan or of a remediation.
use vstd::prelude::*;

verus! {

#[verifier::external_type_specification]
#[verifier::external_body]
pub struct ExIoError(std::io::Error);

#[verifier::external_type_specification]
#[verifier::external_body]
pub struct ExWalkDirError(walkdir::Error);

/// A failure that ends a scan or a remediation. Per-file hashing failures are
/// never one of these: such files are skipped.
#[derive(Debug)]
pub enum ScanError {
    /// A deletion failed for a reason other than the file being absent.
    IO(std::io::Error),
    /// A directory subtree could not be enumerated.
    WalkDir(walkdir::Error),
    /// A hashing unit could not be awaited.
    JoinError,
}

} // verus!
