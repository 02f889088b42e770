//! Persistent sync state: the last sync time of each kind of content.
//!
//! Reading and writing the state file (JSON, written atomically) belongs to
//! the application.

use vstd::prelude::*;

verus! {

/// Last sync times (Unix seconds) of notes, files and settings.
#[derive(Debug, Clone, Copy, PartialEq, Eq, Structural)]
pub struct SyncState {
    /// Last note sync.
    pub last_note_sync_time: i64,
    /// Last file sync.
    pub last_file_sync_time: i64,
    /// Last setting sync.
    pub last_setting_sync_time: i64,
}

impl Default for SyncState {
    fn default() -> (s: Self)
        ensures
            s.last_note_sync_time == 0,
            s.last_file_sync_time == 0,
            s.last_setting_sync_time == 0,
    {
        SyncState { last_note_sync_time: 0, last_file_sync_time: 0, last_setting_sync_time: 0 }
    }
}

} // verus!
