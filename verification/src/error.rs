//! The failures that the storage engine and the registry report.

use vstd::prelude::*;

verus! {

/// Why an operation on the store or on the registry did not complete.
#[derive(Clone, Copy, Debug, PartialEq, Eq, Structural)]
pub enum StoreError {
    /// The database could not be opened, or its schema could not be ensured.
    StorageUnavailable,
    /// Reading the stored tasks failed.
    ReadFailed,
    /// An insert, update or delete was refused or failed.
    WriteFailed,
    /// No row has the given id, or no task stands at the given position.
    NotFound,
}

} // verus!
