//! Message payloads of the sync protocol (their JSON form is produced and read
//! by the application with serde).

use vstd::prelude::*;

verus! {

/// Authorization request (just a token string).
pub type AuthorizationRequest = String;

/// Generic server response wrapper.
#[derive(Debug, Clone)]
pub struct Response<T> {
    pub code: i32,
    pub status: bool,
    pub message: String,
    pub data: Option<T>,
    pub details: Option<String>,
    pub vault: Option<String>,
    pub context: Option<String>,
}

/// Authorization response.
#[derive(Debug, Clone)]
pub struct AuthorizationResponse {
    pub version: String,
    pub git_tag: String,
    pub build_time: String,
}

/// Client info request.
#[derive(Debug, Clone)]
pub struct ClientInfoRequest {
    pub name: String,
    pub version: String,
    pub client_type: String,
    pub offline_sync_strategy: Option<String>,
}

/// Client info response.
#[derive(Debug, Clone)]
pub struct ClientInfoResponse {
    pub version_is_new: bool,
    pub version_new_name: Option<String>,
    pub version_new_link: Option<String>,
    pub plugin_version_is_new: Option<bool>,
    pub plugin_version_new_name: Option<String>,
    pub plugin_version_new_link: Option<String>,
}

/// Note sync request.
#[derive(Debug, Clone)]
pub struct NoteSyncRequest {
    pub vault: String,
    pub last_time: i64,
    pub notes: Vec<NoteSyncCheck>,
    pub context: Option<String>,
}

/// One local note as reported in a note sync request.
#[derive(Debug, Clone)]
pub struct NoteSyncCheck {
    pub path: String,
    pub path_hash: String,
    pub content_hash: String,
    pub ctime: i64,
    pub mtime: i64,
}

/// Note modify/create request.
#[derive(Debug, Clone)]
pub struct NoteModifyRequest {
    pub vault: String,
    pub path: String,
    pub path_hash: Option<String>,
    pub content: String,
    pub content_hash: Option<String>,
    pub base_hash: Option<String>,
    pub ctime: i64,
    pub mtime: i64,
    pub create_only: bool,
}

/// Note delete request.
#[derive(Debug, Clone)]
pub struct NoteDeleteRequest {
    pub vault: String,
    pub path: String,
    pub path_hash: Option<String>,
}

/// Note rename request.
#[derive(Debug, Clone)]
pub struct NoteRenameRequest {
    pub vault: String,
    pub old_path: String,
    pub path: String,
    pub old_path_hash: Option<String>,
    pub path_hash: Option<String>,
}

/// Note sync end message.
#[derive(Debug)]
pub struct NoteSyncEndMessage {
    pub last_time: i64,
    pub need_upload_count: i64,
    pub need_modify_count: i64,
    pub need_sync_mtime_count: i64,
    pub need_delete_count: i64,
    pub messages: Vec<QueuedMessage>,
    pub context: Option<String>,
}

/// Queued message in a sync end message.
#[derive(Debug)]
pub struct QueuedMessage {
    pub action: String,
    pub data: serde_json::Value,
}

/// Note sync modify message.
#[derive(Debug, Clone)]
pub struct NoteSyncModifyMessage {
    pub path: String,
    pub path_hash: String,
    pub content: String,
    pub content_hash: String,
    pub ctime: i64,
    pub mtime: i64,
    pub last_time: i64,
    pub vault: Option<String>,
}

/// Note sync delete message.
#[derive(Debug, Clone)]
pub struct NoteSyncDeleteMessage {
    pub path: String,
    pub path_hash: String,
    pub last_time: i64,
    pub vault: Option<String>,
}

/// Note sync rename message.
#[derive(Debug, Clone)]
pub struct NoteSyncRenameMessage {
    pub old_path: String,
    pub old_path_hash: String,
    pub path: String,
    pub path_hash: String,
    pub last_time: i64,
    pub vault: Option<String>,
}

/// Note sync mtime message.
#[derive(Debug, Clone)]
pub struct NoteSyncMtimeMessage {
    pub path: String,
    pub path_hash: String,
    pub mtime: i64,
    pub last_time: i64,
    pub vault: Option<String>,
}

/// Note sync need-push message.
#[derive(Debug, Clone)]
pub struct NoteSyncNeedPushMessage {
    pub path: String,
    pub path_hash: String,
    pub last_time: i64,
    pub vault: Option<String>,
}

/// File sync request.
#[derive(Debug, Clone)]
pub struct FileSyncRequest {
    pub vault: String,
    pub last_time: i64,
    pub files: Vec<FileSyncCheck>,
    pub context: Option<String>,
}

/// One local file as reported in a file sync request.
#[derive(Debug, Clone)]
pub struct FileSyncCheck {
    pub path: String,
    pub path_hash: String,
    pub content_hash: String,
    pub size: i64,
    pub ctime: i64,
    pub mtime: i64,
}

/// File upload check request.
#[derive(Debug, Clone)]
pub struct FileUploadCheckRequest {
    pub vault: String,
    pub path: String,
    pub path_hash: String,
    pub content_hash: String,
    pub size: i64,
    pub ctime: i64,
    pub mtime: i64,
}

/// File upload response.
#[derive(Debug, Clone)]
pub struct FileUploadResponse {
    pub session_id: String,
    pub chunk_size: i64,
}

/// File sync update message.
#[derive(Debug, Clone)]
pub struct FileSyncUpdateMessage {
    pub path: String,
    pub path_hash: String,
    pub content_hash: String,
    pub size: i64,
    pub ctime: i64,
    pub mtime: i64,
    pub last_time: i64,
    pub vault: Option<String>,
}

/// File sync end message.
#[derive(Debug)]
pub struct FileSyncEndMessage {
    pub last_time: i64,
    pub need_upload_count: i64,
    pub need_modify_count: i64,
    pub need_sync_mtime_count: i64,
    pub need_delete_count: i64,
    pub messages: Vec<QueuedMessage>,
}

/// File delete request.
#[derive(Debug, Clone)]
pub struct FileDeleteRequest {
    pub vault: String,
    pub path: String,
    pub path_hash: Option<String>,
}

/// Folder sync request.
#[derive(Debug, Clone)]
pub struct FolderSyncRequest {
    pub vault: String,
    pub last_time: i64,
    pub folders: Vec<FolderSyncCheck>,
    pub context: Option<String>,
}

/// One local folder as reported in a folder sync request.
#[derive(Debug, Clone)]
pub struct FolderSyncCheck {
    pub path: String,
    pub path_hash: String,
    pub mtime: i64,
}

/// Folder modify request.
#[derive(Debug, Clone)]
pub struct FolderModifyRequest {
    pub vault: String,
    pub path: String,
}

/// Folder delete request.
#[derive(Debug, Clone)]
pub struct FolderDeleteRequest {
    pub vault: String,
    pub path: String,
    pub path_hash: Option<String>,
}

/// Folder rename request.
#[derive(Debug, Clone)]
pub struct FolderRenameRequest {
    pub vault: String,
    pub old_path: String,
    pub path: String,
}

/// Folder sync modify message (server to client).
#[derive(Debug, Clone)]
pub struct FolderSyncModifyMessage {
    pub path: String,
    pub vault: Option<String>,
}

/// Folder sync delete message (server to client).
#[derive(Debug, Clone)]
pub struct FolderSyncDeleteMessage {
    pub path: String,
    pub vault: Option<String>,
}

/// Folder sync rename message (server to client).
#[derive(Debug, Clone)]
pub struct FolderSyncRenameMessage {
    pub old_path: String,
    pub path: String,
    pub vault: Option<String>,
}

/// Folder sync end message.
#[derive(Debug)]
pub struct FolderSyncEndMessage {
    pub last_time: i64,
    pub need_modify_count: i64,
    pub need_delete_count: i64,
    pub messages: Vec<QueuedMessage>,
}

/// Setting sync request.
#[derive(Debug, Clone)]
pub struct SettingSyncRequest {
    pub vault: String,
    pub last_time: i64,
    pub settings: Vec<SettingSyncCheck>,
    pub cover: bool,
    pub context: Option<String>,
}

/// One local setting file as reported in a setting sync request.
#[derive(Debug, Clone)]
pub struct SettingSyncCheck {
    pub path: String,
    pub path_hash: String,
    pub content_hash: String,
    pub mtime: i64,
}

/// Setting sync end message.
#[derive(Debug)]
pub struct SettingSyncEndMessage {
    pub last_time: i64,
    pub need_upload_count: i64,
    pub need_modify_count: i64,
    pub need_sync_mtime_count: i64,
    pub need_delete_count: i64,
    pub messages: Vec<QueuedMessage>,
}

} // verus!
