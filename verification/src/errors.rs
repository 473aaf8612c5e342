use vstd::prelude::*;

verus! {

/// Why an `apply` run refused to start or stopped early.
#[derive(Debug, Clone, PartialEq, Eq)]
pub enum MigrationError {
    /// The catalog itself is malformed (duplicate or non-ascending
    /// versions, or a version of zero): a build defect, reported before
    /// any statement executes.
    CatalogError,
    /// The step carrying `version` failed with the storage engine's
    /// `cause`. Earlier steps stay committed; this and later steps are
    /// not applied.
    StepFailure { version: u64, cause: String },
}

/// The host environment could not supply a usable configuration root.
#[derive(Debug, Clone, PartialEq, Eq)]
pub struct LocationError;

/// A reset run failed after the wipe began. The on-disk state may be
/// partial; the caller should retry the whole reset.
#[derive(Debug, Clone, PartialEq, Eq)]
pub enum ResetError {
    /// The fresh database file could not be created.
    CreateFailed { cause: String },
    /// Replaying the catalog on the fresh database failed.
    MigrationFailed { error: MigrationError },
}

} // verus!
