//! The requests the engines send to the server, built from what the
//! application read from the vault.  Paths and contents are identified by
//! their hashes (see `crate::hash`).

use vstd::prelude::*;
use crate::hash::{hash_bytes, hash_content, hash_path, spec_hash_bytes, spec_hash_content};
use crate::protocol::messages::{
    FileDeleteRequest, FileSyncCheck, FileSyncRequest, FileUploadCheckRequest, FolderSyncCheck, FolderSyncRequest,
    NoteDeleteRequest, NoteModifyRequest, NoteSyncCheck, NoteSyncRequest, SettingSyncCheck, SettingSyncRequest,
};
use crate::sync::file::FileSync;
use crate::sync::folder::FolderSync;
use crate::sync::note::NoteSync;
use crate::sync::setting::SettingSync;

verus! {

/// A local note as reported in a note sync request.
pub fn note_check(path: &str, content: &str, ctime: i64, mtime: i64) -> (r: NoteSyncCheck)
    ensures
        r.path@ == path@,
        r.path_hash@ == spec_hash_content(path@),
        r.content_hash@ == spec_hash_content(content@),
        r.ctime == ctime,
        r.mtime == mtime,
{
    NoteSyncCheck {
        path: String::from_str(path),
        path_hash: hash_path(path),
        content_hash: hash_content(content),
        ctime,
        mtime,
    }
}

/// A local attachment as reported in a file sync request; its size is the
/// length of its content.
pub fn file_check(path: &str, content: &[u8], ctime: i64, mtime: i64) -> (r: FileSyncCheck)
    requires
        content@.len() <= i64::MAX,
    ensures
        r.path@ == path@,
        r.path_hash@ == spec_hash_content(path@),
        r.content_hash@ == spec_hash_bytes(content@),
        r.size == content@.len(),
        r.ctime == ctime,
        r.mtime == mtime,
{
    FileSyncCheck {
        path: String::from_str(path),
        path_hash: hash_path(path),
        content_hash: hash_bytes(content),
        size: content.len() as i64,
        ctime,
        mtime,
    }
}

/// A local folder as reported in a folder sync request.
pub fn folder_check(path: &str, mtime: i64) -> (r: FolderSyncCheck)
    ensures
        r.path@ == path@,
        r.path_hash@ == spec_hash_content(path@),
        r.mtime == mtime,
{
    FolderSyncCheck { path: String::from_str(path), path_hash: hash_path(path), mtime }
}

/// A local setting file as reported in a setting sync request.
pub fn setting_check(path: &str, content: &str, mtime: i64) -> (r: SettingSyncCheck)
    ensures
        r.path@ == path@,
        r.path_hash@ == spec_hash_content(path@),
        r.content_hash@ == spec_hash_content(content@),
        r.mtime == mtime,
{
    SettingSyncCheck {
        path: String::from_str(path),
        path_hash: hash_path(path),
        content_hash: hash_content(content),
        mtime,
    }
}

impl NoteSync {
    /// The note sync request: the notes changed since `last_time` (0 for a
    /// full sync), with a context that identifies the exchange.
    pub fn sync_request(&self, last_time: i64, notes: Vec<NoteSyncCheck>, context: String) -> (r: NoteSyncRequest)
        ensures
            r.vault@ == self.spec_vault(),
            r.last_time == last_time,
            r.notes == notes,
            r.context == Some(context),
    {
        NoteSyncRequest { vault: self.vault().clone(), last_time, notes, context: Some(context) }
    }

    /// The request that pushes a local note with text `content`.
    pub fn modify_request(&self, path: &str, content: String, ctime: i64, mtime: i64) -> (r: NoteModifyRequest)
        ensures
            r.vault@ == self.spec_vault(),
            r.path@ == path@,
            r.path_hash matches Some(h) && h@ == spec_hash_content(path@),
            r.content == content,
            r.content_hash matches Some(h) && h@ == spec_hash_content(content@),
            r.base_hash is None,
            r.ctime == ctime,
            r.mtime == mtime,
            !r.create_only,
    {
        let content_hash = hash_content(content.as_str());
        NoteModifyRequest {
            vault: self.vault().clone(),
            path: String::from_str(path),
            path_hash: Some(hash_path(path)),
            content,
            content_hash: Some(content_hash),
            base_hash: None,
            ctime,
            mtime,
            create_only: false,
        }
    }

    /// The request that pushes the deletion of a local note.
    pub fn delete_request(&self, path: &str) -> (r: NoteDeleteRequest)
        ensures
            r.vault@ == self.spec_vault(),
            r.path@ == path@,
            r.path_hash matches Some(h) && h@ == spec_hash_content(path@),
    {
        NoteDeleteRequest { vault: self.vault().clone(), path: String::from_str(path), path_hash: Some(hash_path(path)) }
    }
}

impl FileSync {
    /// The file sync request.  It always reports the full index of local
    /// files (`last_time` 0): the server treats the client paths it does not
    /// list as missing on its side.
    pub fn sync_request(&self, files: Vec<FileSyncCheck>, context: String) -> (r: FileSyncRequest)
        ensures
            r.vault@ == self.spec_vault_name(),
            r.last_time == 0,
            r.files == files,
            r.context == Some(context),
    {
        FileSyncRequest { vault: self.vault_name().clone(), last_time: 0, files, context: Some(context) }
    }

    /// The request that asks to upload a local attachment with content hash
    /// `content_hash`.
    pub fn upload_check_request(
        &self,
        path: &str,
        content_hash: String,
        size: i64,
        ctime: i64,
        mtime: i64,
    ) -> (r: FileUploadCheckRequest)
        ensures
            r.vault@ == self.spec_vault_name(),
            r.path@ == path@,
            r.path_hash@ == spec_hash_content(path@),
            r.content_hash == content_hash,
            r.size == size,
            r.ctime == ctime,
            r.mtime == mtime,
    {
        FileUploadCheckRequest {
            vault: self.vault_name().clone(),
            path: String::from_str(path),
            path_hash: hash_path(path),
            content_hash,
            size,
            ctime,
            mtime,
        }
    }

    /// The request that pushes the deletion of a local attachment.
    pub fn delete_request(&self, path: &str) -> (r: FileDeleteRequest)
        ensures
            r.vault@ == self.spec_vault_name(),
            r.path@ == path@,
            r.path_hash matches Some(h) && h@ == spec_hash_content(path@),
    {
        FileDeleteRequest {
            vault: self.vault_name().clone(),
            path: String::from_str(path),
            path_hash: Some(hash_path(path)),
        }
    }
}

impl FolderSync {
    /// The folder sync request.
    pub fn sync_request(&self, last_time: i64, folders: Vec<FolderSyncCheck>, context: String) -> (r: FolderSyncRequest)
        ensures
            r.vault@ == self.spec_vault(),
            r.last_time == last_time,
            r.folders == folders,
            r.context == Some(context),
    {
        FolderSyncRequest { vault: self.vault().clone(), last_time, folders, context: Some(context) }
    }
}

impl SettingSync {
    /// The setting sync request; the server's settings never replace the
    /// local ones wholesale (`cover` is off).
    pub fn sync_request(&self, last_time: i64, settings: Vec<SettingSyncCheck>, context: String) -> (r: SettingSyncRequest)
        ensures
            r.vault@ == self.spec_vault(),
            r.last_time == last_time,
            r.settings == settings,
            !r.cover,
            r.context == Some(context),
    {
        SettingSyncRequest { vault: self.vault().clone(), last_time, settings, cover: false, context: Some(context) }
    }
}

} // verus!
