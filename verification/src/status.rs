//! Synchronization status vocabulary shared with the daemon.

use vstd::prelude::*;

verus! {

/// Synchronization state of one file, as the daemon reports it.
#[derive(Debug, Clone, Copy, PartialEq, Eq, Structural)]
pub enum SyncStatus {
    /// Present locally and in the cloud.
    Synced,
    /// Present only in the cloud, not downloaded.
    CloudOnly,
    /// Present only locally, pending upload.
    LocalOnly,
    /// Synchronization error.
    Error,
    /// Nothing is known about the file.
    Unknown,
}

/// Whether a file's bytes are kept locally, only online, or not tracked.
#[derive(Debug, Clone, Copy, PartialEq, Eq, Structural)]
pub enum FileAvailability {
    LocalOnline,
    OnlineOnly,
    NotTracked,
}

/// One status snapshot for a file: its sync state, its availability, and
/// whether it is shared.
#[derive(Debug, Clone, Copy, PartialEq, Eq, Structural)]
pub struct FileStatusData {
    pub status: SyncStatus,
    pub availability: FileAvailability,
    pub is_shared: bool,
}

/// The neutral default snapshot: returned whenever the bridge cannot get a
/// real answer within budget.
pub open spec fn neutral_snapshot() -> FileStatusData {
    FileStatusData {
        status: SyncStatus::Unknown,
        availability: FileAvailability::NotTracked,
        is_shared: false,
    }
}

impl FileStatusData {
    /// Builds the neutral default snapshot.
    pub fn neutral() -> (r: FileStatusData)
        ensures
            r == neutral_snapshot(),
    {
        FileStatusData {
            status: SyncStatus::Unknown,
            availability: FileAvailability::NotTracked,
            is_shared: false,
        }
    }
}

} // verus!
