//! Recoverable errors of the storage layer.
use vstd::prelude::*;

verus! {

/// Conditions a storage backend reports to its caller.
#[derive(Debug, Clone, Copy, PartialEq, Eq, Structural)]
pub enum StorageError {
    /// The requested index lies below the retained part of the log.
    EntryCompacted,
    /// The requested index lies beyond the last index.
    Unavailable,
    /// The snapshot is older than what the store already retains.
    SnapshotOutOfDate,
    /// No snapshot covering the requested index can be produced right now.
    SnapshotTemporarilyUnavailable,
    /// The backend cannot be read.
    StorageUnavailable,
}

/// Errors of the log core.
#[derive(Debug, Clone, Copy, PartialEq, Eq, Structural)]
pub enum Error {
    Store(StorageError),
}

pub type Result<T> = core::result::Result<T, Error>;

} // verus!
