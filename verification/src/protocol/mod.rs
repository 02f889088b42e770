//! WebSocket protocol: action names, message types, text and binary framing.
//!
//! Text frames are `ACTION|JSON`; binary frames are
//! `['0', '0'][36 bytes session id][4 bytes chunk index, big-endian][payload]`.

pub mod actions;
pub mod messages;
pub mod status_code;

pub use self::actions::{Action, ClientAction, ServerAction};
pub mod frame;

pub use self::frame::{build_binary_chunk, parse_binary_chunk, CHUNK_INDEX_LEN, PREFIX_BC, SESSION_ID_LEN};
pub use self::frame::{BinaryChunkBuilder, BinaryChunkParser, ChunkReassembler, ParsedChunk};
pub mod codec;

pub use self::codec::{decode_message, encode_simple_message, split_message, SEPARATOR};
pub use self::messages::{
    AuthorizationRequest, Response, AuthorizationResponse, ClientInfoRequest, ClientInfoResponse, NoteSyncRequest, NoteSyncCheck, NoteModifyRequest, NoteDeleteRequest, NoteRenameRequest, NoteSyncEndMessage, QueuedMessage, NoteSyncModifyMessage, NoteSyncDeleteMessage, NoteSyncRenameMessage, NoteSyncMtimeMessage, NoteSyncNeedPushMessage, FileSyncRequest, FileSyncCheck, FileUploadCheckRequest, FileUploadResponse, FileSyncUpdateMessage, FileSyncEndMessage, FileDeleteRequest, FolderSyncRequest, FolderSyncCheck, FolderModifyRequest, FolderDeleteRequest, FolderRenameRequest, FolderSyncModifyMessage, FolderSyncDeleteMessage, FolderSyncRenameMessage, FolderSyncEndMessage, SettingSyncRequest, SettingSyncCheck, SettingSyncEndMessage,
};
