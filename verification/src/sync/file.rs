//! File sync: the attachments of the vault (everything that is neither a
//! note nor in a dot-prefixed directory), transferred whole when small and in
//! binary chunks otherwise.
//!
//! The engine tracks the upload and download sessions of an exchange, the
//! per-path echo of its own operations, the counters of the exchange and the
//! time of the last activity (for stall detection).  Reading and writing
//! files and the WebSocket belong to the application.

use std::time::Instant;
use base64::Engine;
use vstd::prelude::*;
use vstd::string::StringSliceAdditionalSpecFns;
use crate::clock::{instant_now, nanos_since, NANOS_PER_SEC, is_clock_reading};
use crate::config::AppConfig;
use crate::echo_cache::DELETED_MARKER;
use crate::error::FnsError;
use crate::hash::{hash_bytes, spec_hash_bytes};
use crate::paths::has_suffix;
use crate::protocol::actions::{action_name, lemma_action_name_roundtrip, server_action_name, Action, ServerAction};
use crate::protocol::frame::{build_binary_chunk, spec_frame, spec_parse_frame, BinaryChunkParser, ChunkReassembler};
use crate::sync::echo::EchoHashes;
use crate::sync::progress::Progress;
use crate::sync::rules::{is_dot_prefixed_path, spec_dot_prefixed};
use crate::text::{chars_to_string, str_chars, str_eq};

verus! {

/// Default chunk size (512 KiB).
pub const DEFAULT_CHUNK_SIZE: usize = 524_288;

/// Default number of concurrent uploads.
pub const DEFAULT_UPLOAD_CONCURRENCY: usize = 2;

/// Seconds without activity after which an unfinished exchange is stalled.
pub const STALL_THRESHOLD_SECS: u64 = 30;

/// What base64's standard engine decodes a text to (`None` when the text is
/// not valid standard base64).
pub uninterp spec fn base64_standard_decoded(text: Seq<char>) -> Option<Seq<u8>>;

/// base64's `STANDARD.decode`: the bytes that `text` encodes (standard
/// alphabet, with padding), or the decoder's error message.  The result is a
/// function of `text` alone, named `base64_standard_decoded`; what the
/// message says is not stated.
#[verifier::external_body]
fn base64_standard_decode(text: &str) -> (r: Result<Vec<u8>, String>)
    ensures
        match r {
            Ok(v) => base64_standard_decoded(text@) == Some(v@),
            Err(_) => base64_standard_decoded(text@) is None,
        },
{
    match base64::engine::general_purpose::STANDARD.decode(text) {
        Ok(v) => Ok(v),
        Err(e) => Err(e.to_string()),
    }
}

/// Decodes inline base64 content; a decoding failure is a protocol error
/// whose message starts with `Base64 decode error: `.
pub fn base64_decode(text: &str) -> (r: Result<Vec<u8>, FnsError>)
    ensures
        match r {
            Ok(v) => base64_standard_decoded(text@) == Some(v@),
            Err(FnsError::Protocol { message }) => base64_standard_decoded(text@) is None
                && crate::paths::has_prefix(message@, "Base64 decode error: "@),
            Err(_) => false,
        },
{
    proof {
        reveal_strlit("Base64 decode error: ");
    }
    match base64_standard_decode(text) {
        Ok(v) => Ok(v),
        Err(e) => {
            let mut m = String::from_str("Base64 decode error: ");
            m.append(e.as_str());
            proof {
                assert(m@.subrange(0, "Base64 decode error: "@.len() as int) =~= "Base64 decode error: "@);
            }
            Err(FnsError::Protocol { message: m })
        },
    }
}

/// An upload in progress.
#[derive(Debug, Clone)]
pub struct UploadSession {
    pub session_id: String,
    pub path: String,
    pub chunk_size: usize,
    pub total_chunks: usize,
    pub chunks_sent: usize,
}

/// A download in progress.
#[derive(Debug)]
pub struct DownloadSession {
    pub session_id: String,
    pub path: String,
    pub total_size: usize,
    pub total_chunks: usize,
    pub chunk_size: usize,
    pub reassembler: ChunkReassembler,
}

/// What to do with a file update from the server.
#[derive(Debug, Clone, Copy, PartialEq, Eq, Structural)]
pub enum UpdateStep {
    /// Nothing: no path is named.
    Skip,
    /// Nothing but counting: the path is a config path.
    ConfigPath,
    /// Write the inline content.
    WriteInline,
    /// Ask the server for the chunks.
    RequestChunks,
}

/// What to do with a file deletion from the server.
#[derive(Debug, Clone, Copy, PartialEq, Eq, Structural)]
pub enum DeleteStep {
    /// Nothing: no path is named.
    Skip,
    /// Nothing but counting: the path is a config path.
    ConfigPath,
    /// Nothing but counting: the echo of the client's own deletion.
    EchoSuppressed,
    /// Delete the file.
    Delete,
}

/// What to do with the start of a chunked download.
#[derive(Debug, Clone, Copy, PartialEq, Eq, Structural)]
pub enum DownloadStart {
    /// Nothing: no session or no path is named.
    Skip,
    /// Write an empty file (the file has no chunk).
    WriteEmpty,
    /// A download session was opened.
    Started,
}

/// How a server message of a file sync exchange is handled.
#[derive(Debug, Clone, Copy, PartialEq, Eq, Structural)]
pub enum FileMessage {
    /// A changed attachment to write or download.
    Update,
    /// An attachment to delete.
    Delete,
    /// An attachment to rename.
    Rename,
    /// A modification time to apply.
    Mtime,
    /// The start of a chunked download.
    ChunkDownload,
    /// An upload session opened by the server: send the chunks.
    Upload,
    /// The acknowledgement of an upload.
    UploadAck,
    /// The end message.
    End,
    /// Nothing to do.
    Ignore,
}

/// How each server action is handled during a file sync exchange.
pub open spec fn spec_file_message(action: ServerAction) -> FileMessage {
    match action {
        ServerAction::FileSyncUpdate => FileMessage::Update,
        ServerAction::FileSyncDelete => FileMessage::Delete,
        ServerAction::FileSyncRename => FileMessage::Rename,
        ServerAction::FileSyncMtime => FileMessage::Mtime,
        ServerAction::FileSyncChunkDownload => FileMessage::ChunkDownload,
        ServerAction::FileUpload => FileMessage::Upload,
        ServerAction::FileUploadAck => FileMessage::UploadAck,
        ServerAction::FileSyncEnd => FileMessage::End,
        _ => FileMessage::Ignore,
    }
}

/// Classifies a server message of a file sync exchange by its action.
pub fn classify_file_action(action: ServerAction) -> (r: FileMessage)
    ensures
        r == spec_file_message(action),
{
    match action {
        ServerAction::FileSyncUpdate => FileMessage::Update,
        ServerAction::FileSyncDelete => FileMessage::Delete,
        ServerAction::FileSyncRename => FileMessage::Rename,
        ServerAction::FileSyncMtime => FileMessage::Mtime,
        ServerAction::FileSyncChunkDownload => FileMessage::ChunkDownload,
        ServerAction::FileUpload => FileMessage::Upload,
        ServerAction::FileUploadAck => FileMessage::UploadAck,
        ServerAction::FileSyncEnd => FileMessage::End,
        _ => FileMessage::Ignore,
    }
}

/// Whether two download sessions agree on everything but their chunks.
pub open spec fn same_download_fields(a: DownloadSession, b: DownloadSession) -> bool {
    a.session_id@ == b.session_id@ && a.path@ == b.path@ && a.total_size == b.total_size && a.total_chunks
        == b.total_chunks && a.chunk_size == b.chunk_size
}

/// Whether a vault file is an attachment for the file engine: not a note
/// and not in a dot-prefixed directory.
pub open spec fn spec_file_candidate(rel: Seq<char>) -> bool {
    !has_suffix(rel, ".md"@) && !spec_dot_prefixed(rel)
}

/// The frames that upload `data` in chunks of `chunk_size` bytes, numbered
/// from `index`: each carries the next `chunk_size` bytes (fewer at the end).
pub open spec fn chunk_frames(sid: Seq<u8>, data: Seq<u8>, chunk_size: nat, index: nat) -> Seq<Seq<u8>>
    decreases data.len(),
{
    if data.len() == 0 || chunk_size == 0 {
        Seq::empty()
    } else {
        let n = if chunk_size < data.len() { chunk_size } else { data.len() };
        seq![spec_frame(sid, index as u32, data.take(n as int))] + chunk_frames(
            sid,
            data.skip(n as int),
            chunk_size,
            index + 1,
        )
    }
}

/// The frames that upload `data`: its chunks, or one empty frame for an
/// empty file.
pub open spec fn upload_frames(sid: Seq<u8>, data: Seq<u8>, chunk_size: nat) -> Seq<Seq<u8>> {
    if data.len() == 0 {
        seq![spec_frame(sid, 0, Seq::empty())]
    } else {
        chunk_frames(sid, data, chunk_size, 0)
    }
}

/// Selects the download sessions whose id is not `id`.
pub open spec fn not_download(id: Seq<char>) -> spec_fn(DownloadSession) -> bool {
    |d: DownloadSession| d.session_id@ != id
}

/// Selects the upload sessions whose id is not `id`.
pub open spec fn not_upload(id: Seq<char>) -> spec_fn(UploadSession) -> bool {
    |u: UploadSession| u.session_id@ != id
}

/// The chunk count of a download: the announced one (converted as
/// `as usize` converts it), 1 when none is announced.
pub open spec fn spec_chunk_count(total_chunks: Option<i64>) -> usize {
    match total_chunks {
        Some(n) => n as usize,
        None => 1usize,
    }
}

/// Position of the first session with id `id`, if any.
pub open spec fn download_pos(s: Seq<DownloadSession>, id: Seq<char>) -> Option<int>
    decreases s.len(),
{
    if s.len() == 0 {
        None
    } else {
        match download_pos(s.drop_last(), id) {
            Some(i) => Some(i),
            None => if s.last().session_id@ == id { Some(s.len() - 1) } else { None },
        }
    }
}

/// Whether an upload session concerns `id` (by id) or, without an id, `path`.
pub open spec fn upload_pos(s: Seq<UploadSession>, id: Seq<char>, path: Seq<char>) -> Option<int>
    decreases s.len(),
{
    if s.len() == 0 {
        None
    } else {
        match upload_pos(s.drop_last(), id, path) {
            Some(i) => Some(i),
            None => if (if id.len() > 0 { s.last().session_id@ == id } else { s.last().path@ == path }) {
                Some(s.len() - 1)
            } else {
                None
            },
        }
    }
}

/// File sync engine.
pub struct FileSync {
    vault_path: String,
    vault_name: String,
    chunk_size: usize,
    upload_concurrency: usize,
    active_uploads: Vec<UploadSession>,
    active_downloads: Vec<DownloadSession>,
    echo_hashes: EchoHashes,
    progress: Progress,
    last_activity: u128,
    origin: Instant,
}

impl FileSync {
    /// The local vault directory.
    pub closed spec fn spec_vault_path(&self) -> Seq<char> {
        self.vault_path@
    }

    /// The vault name used in protocol messages.
    pub closed spec fn spec_vault_name(&self) -> Seq<char> {
        self.vault_name@
    }

    /// The chunk size of transfers.
    pub closed spec fn spec_chunk_size(&self) -> usize {
        self.chunk_size
    }

    /// The number of concurrent uploads.
    pub closed spec fn spec_upload_concurrency(&self) -> usize {
        self.upload_concurrency
    }

    /// The uploads in progress.
    pub closed spec fn uploads(&self) -> Seq<UploadSession> {
        self.active_uploads@
    }

    /// The downloads in progress.
    pub closed spec fn downloads(&self) -> Seq<DownloadSession> {
        self.active_downloads@
    }

    /// Per path, the hash of the last operation that went either way (or the
    /// deletion marker).
    pub closed spec fn echo(&self) -> Map<Seq<char>, Seq<char>> {
        self.echo_hashes@
    }

    /// The counters of the current exchange.
    pub closed spec fn progress(&self) -> Progress {
        self.progress
    }

    /// Whether `other` is set up the same: vault, names and settings.
    pub open spec fn same_setup(&self, other: &Self) -> bool {
        self.spec_vault_path() == other.spec_vault_path() && self.spec_vault_name() == other.spec_vault_name() && self.spec_chunk_size() == other.spec_chunk_size() && self.spec_upload_concurrency() == other.spec_upload_concurrency()
    }

    /// The clock reading (nanoseconds since the engine was made) of the last activity.
    pub closed spec fn last_activity(&self) -> u128 {
        self.last_activity
    }

    /// The engine's invariant.
    pub open spec fn wf(&self) -> bool {
        self.progress().wf()
    }

    /// The hash recorded for `path` (or the deletion marker), if any.
    pub fn echo_hash(&self, path: &str) -> (r: Option<&String>)
        ensures
            match r {
                Some(h) => self.echo().contains_key(path@) && self.echo()[path@] == h@,
                None => !self.echo().contains_key(path@),
            },
    {
        self.echo_hashes.get(path)
    }

    /// Whether the echo of `path` is `hash`.
    pub open spec fn echo_is(&self, path: Seq<char>, hash: Seq<char>) -> bool {
        self.echo().contains_key(path) && self.echo()[path] == hash
    }

    /// A file engine for the vault at `vault_path`, with the vault name,
    /// chunk size and upload concurrency of `config`.
    pub fn new(config: &AppConfig, vault_path: String) -> (f: Self)
        ensures
            f.wf(),
            f.spec_vault_path() == vault_path@,
            f.spec_vault_name() == config.server.vault@,
            f.spec_chunk_size() == config.sync.file_chunk_size,
            f.spec_upload_concurrency() == config.sync.upload_concurrency,
            f.uploads().len() == 0,
            f.downloads().len() == 0,
            f.echo() == Map::<Seq<char>, Seq<char>>::empty(),
            f.progress() == Progress::spec_fresh(),
    {
        FileSync {
            vault_path,
            vault_name: config.server.vault.clone(),
            chunk_size: config.sync.file_chunk_size,
            upload_concurrency: config.sync.upload_concurrency,
            active_uploads: Vec::new(),
            active_downloads: Vec::new(),
            echo_hashes: EchoHashes::new(),
            progress: Progress::fresh(),
            last_activity: 0,
            origin: instant_now(),
        }
    }

    /// A file engine with explicit parameters; a chunk size or concurrency of
    /// zero is replaced by the default.
    pub fn with_params(vault_path: String, vault_name: String, chunk_size: usize, upload_concurrency: usize) -> (f: Self)
        ensures
            f.wf(),
            f.spec_vault_path() == vault_path@,
            f.spec_vault_name() == vault_name@,
            f.spec_chunk_size() == (if chunk_size == 0 { DEFAULT_CHUNK_SIZE } else { chunk_size }),
            f.spec_upload_concurrency() == (if upload_concurrency == 0 { DEFAULT_UPLOAD_CONCURRENCY } else { upload_concurrency }),
            f.uploads().len() == 0,
            f.downloads().len() == 0,
            f.echo() == Map::<Seq<char>, Seq<char>>::empty(),
            f.progress() == Progress::spec_fresh(),
    {
        FileSync {
            vault_path,
            vault_name,
            chunk_size: if chunk_size == 0 { DEFAULT_CHUNK_SIZE } else { chunk_size },
            upload_concurrency: if upload_concurrency == 0 { DEFAULT_UPLOAD_CONCURRENCY } else { upload_concurrency },
            active_uploads: Vec::new(),
            active_downloads: Vec::new(),
            echo_hashes: EchoHashes::new(),
            progress: Progress::fresh(),
            last_activity: 0,
            origin: instant_now(),
        }
    }

    /// The local vault directory.
    pub fn vault_path(&self) -> (r: &String)
        ensures
            r@ == self.spec_vault_path(),
    {
        &self.vault_path
    }

    /// The vault name used in protocol messages.
    pub fn vault_name(&self) -> (r: &String)
        ensures
            r@ == self.spec_vault_name(),
    {
        &self.vault_name
    }

    /// The chunk size of transfers.
    pub fn chunk_size(&self) -> (r: usize)
        ensures
            r == self.spec_chunk_size(),
    {
        self.chunk_size
    }

    /// The clock reading used by the operations without `_at`.
    fn now(&self) -> (r: u128)
        ensures
            is_clock_reading(r),
    {
        nanos_since(&self.origin)
    }

    /// Starts a new exchange at clock reading `now`: no session, counters
    /// back to zero, activity now.
    pub fn reset_at(&mut self, now: u128)
        ensures
            final(self).same_setup(old(self)),
            final(self).wf(),
            final(self).uploads().len() == 0,
            final(self).downloads().len() == 0,
            final(self).progress() == Progress::spec_fresh(),
            final(self).last_activity() == now,
            final(self).echo() == old(self).echo(),
            final(self).spec_chunk_size() == old(self).spec_chunk_size(),
    {
        self.active_uploads = Vec::new();
        self.active_downloads = Vec::new();
        self.progress = Progress::fresh();
        self.last_activity = now;
    }

    /// Starts a new exchange: no session, counters back to zero, activity now.
    pub fn reset(&mut self)
        ensures
            final(self).same_setup(old(self)),
            final(self).wf(),
            final(self).uploads().len() == 0,
            final(self).downloads().len() == 0,
            final(self).progress() == Progress::spec_fresh(),
            final(self).echo() == old(self).echo(),
            final(self).spec_chunk_size() == old(self).spec_chunk_size(),
    {
        let now = self.now();
        self.reset_at(now);
    }

    /// Records activity at clock reading `now`.
    pub fn mark_activity_at(&mut self, now: u128)
        ensures
            final(self).same_setup(old(self)),
            final(self).last_activity() == now,
            final(self).progress() == old(self).progress(),
            final(self).echo() == old(self).echo(),
            final(self).uploads() == old(self).uploads(),
            final(self).downloads() == old(self).downloads(),
            final(self).spec_chunk_size() == old(self).spec_chunk_size(),
    {
        self.last_activity = now;
    }

    /// Records activity now.
    pub fn mark_activity(&mut self)
        ensures
            final(self).same_setup(old(self)),
            is_clock_reading(final(self).last_activity()),
            final(self).progress() == old(self).progress(),
            final(self).echo() == old(self).echo(),
            final(self).uploads() == old(self).uploads(),
            final(self).downloads() == old(self).downloads(),
            final(self).spec_chunk_size() == old(self).spec_chunk_size(),
    {
        let now = self.now();
        self.last_activity = now;
    }

    /// Whether the exchange is stalled at clock reading `now`: the end
    /// message arrived, no download is running, changes are still missing,
    /// and nothing happened for 30 seconds.
    pub open spec fn spec_stalled_at(&self, now: u128) -> bool {
        self.progress().got_end && self.downloads().len() == 0
            && self.progress().total_received() < self.progress().total_expected()
            && (if now >= self.last_activity() { now - self.last_activity() } else { 0int }) >= STALL_THRESHOLD_SECS
            * NANOS_PER_SEC
    }

    /// Whether the exchange is stalled at clock reading `now` (see
    /// [`FileSync::spec_stalled_at`]).
    pub fn is_stalled_at(&self, now: u128) -> (r: bool)
        requires
            self.wf(),
        ensures
            r == self.spec_stalled_at(now),
    {
        if !self.progress.got_end {
            return false;
        }
        if self.active_downloads.len() != 0 {
            return false;
        }
        let total_expected = self.progress.expected_modify + self.progress.expected_delete + self.progress.expected_upload;
        let total_received = self.progress.received_modify + self.progress.received_delete + self.progress.received_upload;
        if total_received >= total_expected {
            return false;
        }
        let idle: u128 = if now >= self.last_activity { now - self.last_activity } else { 0 };
        idle >= (STALL_THRESHOLD_SECS as u128) * NANOS_PER_SEC
    }

    /// Whether the exchange is stalled (see [`FileSync::is_stalled_at`]).
    pub fn is_stalled(&self) -> (r: bool)
        requires
            self.wf(),
        ensures
            exists|now: u128| r == #[trigger] self.spec_stalled_at(now),
    {
        let now = self.now();
        let r = self.is_stalled_at(now);
        assert(r == self.spec_stalled_at(now));
        r
    }

    /// Whether the exchange is complete: the end message arrived, every
    /// announced change was handled, and no session is running.
    pub fn is_complete(&self) -> (r: bool)
        requires
            self.wf(),
        ensures
            r == (self.progress().got_end && self.progress().total_received() >= self.progress().total_expected()
                && self.downloads().len() == 0 && self.uploads().len() == 0),
    {
        if !self.progress.got_end {
            return false;
        }
        let total_expected = self.progress.expected_modify + self.progress.expected_delete + self.progress.expected_upload;
        let total_received = self.progress.received_modify + self.progress.received_delete + self.progress.received_upload;
        total_received >= total_expected && self.active_downloads.len() == 0 && self.active_uploads.len() == 0
    }

    /// The sync time reported by the server's end message.
    pub fn pending_last_time(&self) -> (r: i64)
        ensures
            r == self.progress().pending_last_time,
    {
        self.progress.pending_last_time
    }

    /// Files synced in the current exchange: modifications and deletions
    /// handled.
    pub fn synced_count(&self) -> (r: usize)
        requires
            self.wf(),
        ensures
            r == self.progress().received_modify + self.progress().received_delete,
    {
        self.progress.received_modify + self.progress.received_delete
    }

    /// Server messages handled in the current exchange, uploads included.
    pub fn received_total(&self) -> (r: usize)
        requires
            self.wf(),
        ensures
            r == self.progress().total_received(),
    {
        self.progress.received_modify + self.progress.received_delete + self.progress.received_upload
    }

    /// Records the server's end message: the announced counts (missing
    /// counts are zero) and the sync time.
    pub fn handle_sync_end(&mut self, last_time: i64, need_modify: i64, need_delete: i64, need_upload: i64)
        requires
            old(self).wf(),
            (need_modify as usize) + (need_delete as usize) + (need_upload as usize) <= usize::MAX,
        ensures
            final(self).same_setup(old(self)),
            final(self).wf(),
            final(self).progress() == (Progress {
                pending_last_time: last_time,
                expected_modify: need_modify as usize,
                expected_delete: need_delete as usize,
                expected_upload: need_upload as usize,
                got_end: true,
                ..old(self).progress()
            }),
            final(self).echo() == old(self).echo(),
            final(self).uploads() == old(self).uploads(),
            final(self).downloads() == old(self).downloads(),
    {
        self.progress.pending_last_time = last_time;
        self.progress.expected_modify = need_modify as usize;
        self.progress.expected_delete = need_delete as usize;
        self.progress.expected_upload = need_upload as usize;
        self.progress.got_end = true;
    }

    /// Whether a vault file is an attachment for the file engine.
    pub fn is_file_candidate(rel: &str) -> (r: bool)
        ensures
            r == spec_file_candidate(rel@),
    {
        !crate::paths::ends_with(rel, ".md") && !is_dot_prefixed_path(rel)
    }

    /// Decides on a file update from the server: skipped without a path;
    /// counted only for a config path; otherwise the echo of the path is
    /// forgotten and the inline content is written or the chunks requested.
    pub fn on_sync_update(&mut self, path: &str, has_inline_content: bool) -> (r: UpdateStep)
        requires
            old(self).wf(),
            old(self).progress().total_received() < usize::MAX,
        ensures
            final(self).same_setup(old(self)),
            final(self).wf(),
            final(self).uploads() == old(self).uploads(),
            final(self).downloads() == old(self).downloads(),
            path@.len() == 0 ==> r == UpdateStep::Skip && final(self).echo() == old(self).echo()
                && final(self).progress() == old(self).progress(),
            path@.len() > 0 && spec_dot_prefixed(path@) ==> r == UpdateStep::ConfigPath && final(self).echo()
                == old(self).echo() && final(self).progress() == (Progress {
                received_modify: (old(self).progress().received_modify + 1) as usize,
                ..old(self).progress()
            }),
            path@.len() > 0 && !spec_dot_prefixed(path@) ==> final(self).echo() == old(self).echo().remove(path@)
                && final(self).progress() == old(self).progress() && r == (if has_inline_content {
                UpdateStep::WriteInline
            } else {
                UpdateStep::RequestChunks
            }),
    {
        if path.is_empty() {
            return UpdateStep::Skip;
        }
        if is_dot_prefixed_path(path) {
            self.progress.received_modify = self.progress.received_modify + 1;
            return UpdateStep::ConfigPath;
        }
        self.echo_hashes.forget(path);
        if has_inline_content {
            UpdateStep::WriteInline
        } else {
            UpdateStep::RequestChunks
        }
    }

    /// Records that `content` was written to `path` at the server's request
    /// (inline content or a finished download) and counts the modification.
    pub fn file_written(&mut self, path: &str, content: &[u8])
        requires
            old(self).wf(),
            old(self).progress().total_received() < usize::MAX,
        ensures
            final(self).same_setup(old(self)),
            final(self).wf(),
            final(self).echo() == old(self).echo().insert(path@, spec_hash_bytes(content@)),
            final(self).progress() == (Progress {
                received_modify: (old(self).progress().received_modify + 1) as usize,
                ..old(self).progress()
            }),
            final(self).uploads() == old(self).uploads(),
            final(self).downloads() == old(self).downloads(),
    {
        let h = hash_bytes(content);
        self.echo_hashes.set(path, h.as_str());
        self.progress.received_modify = self.progress.received_modify + 1;
    }

    /// Records the content found at `path` (after a rename or an empty
    /// download) without counting.
    pub fn content_seen(&mut self, path: &str, content: &[u8])
        requires
            old(self).wf(),
        ensures
            final(self).same_setup(old(self)),
            final(self).wf(),
            final(self).echo() == old(self).echo().insert(path@, spec_hash_bytes(content@)),
            final(self).progress() == old(self).progress(),
            final(self).uploads() == old(self).uploads(),
            final(self).downloads() == old(self).downloads(),
    {
        let h = hash_bytes(content);
        self.echo_hashes.set(path, h.as_str());
    }

    /// Decides on a file deletion from the server: skipped without a path;
    /// counted only for a config path or for the echo of the client's own
    /// deletion; otherwise the file is to be deleted.
    pub fn on_sync_delete(&mut self, path: &str) -> (r: DeleteStep)
        requires
            old(self).wf(),
            old(self).progress().total_received() < usize::MAX,
        ensures
            final(self).same_setup(old(self)),
            final(self).wf(),
            final(self).echo() == old(self).echo(),
            final(self).uploads() == old(self).uploads(),
            final(self).downloads() == old(self).downloads(),
            r == (if path@.len() == 0 {
                DeleteStep::Skip
            } else if spec_dot_prefixed(path@) {
                DeleteStep::ConfigPath
            } else if old(self).echo_is(path@, DELETED_MARKER@) {
                DeleteStep::EchoSuppressed
            } else {
                DeleteStep::Delete
            }),
            r == DeleteStep::ConfigPath || r == DeleteStep::EchoSuppressed ==> final(self).progress() == (Progress {
                received_delete: (old(self).progress().received_delete + 1) as usize,
                ..old(self).progress()
            }),
            r == DeleteStep::Skip || r == DeleteStep::Delete ==> final(self).progress() == old(self).progress(),
    {
        if path.is_empty() {
            return DeleteStep::Skip;
        }
        if is_dot_prefixed_path(path) {
            self.progress.received_delete = self.progress.received_delete + 1;
            return DeleteStep::ConfigPath;
        }
        if self.echo_hashes.is(path, DELETED_MARKER) {
            self.progress.received_delete = self.progress.received_delete + 1;
            return DeleteStep::EchoSuppressed;
        }
        DeleteStep::Delete
    }

    /// Records that `path` was deleted (or found absent) at the server's
    /// request, and counts the deletion.
    pub fn file_deleted(&mut self, path: &str)
        requires
            old(self).wf(),
            old(self).progress().total_received() < usize::MAX,
        ensures
            final(self).same_setup(old(self)),
            final(self).wf(),
            final(self).echo() == old(self).echo().insert(path@, DELETED_MARKER@),
            final(self).progress() == (Progress {
                received_delete: (old(self).progress().received_delete + 1) as usize,
                ..old(self).progress()
            }),
            final(self).uploads() == old(self).uploads(),
            final(self).downloads() == old(self).downloads(),
    {
        self.echo_hashes.set(path, DELETED_MARKER);
        self.progress.received_delete = self.progress.received_delete + 1;
    }

    /// Decides on a rename from the server: nothing unless both paths are
    /// named; otherwise the old path is marked deleted and the rename is to
    /// be applied.
    pub fn on_sync_rename(&mut self, old_path: &str, new_path: &str) -> (r: bool)
        requires
            old(self).wf(),
        ensures
            final(self).same_setup(old(self)),
            final(self).wf(),
            final(self).progress() == old(self).progress(),
            final(self).uploads() == old(self).uploads(),
            final(self).downloads() == old(self).downloads(),
            r == (old_path@.len() > 0 && new_path@.len() > 0),
            r ==> final(self).echo() == old(self).echo().insert(old_path@, DELETED_MARKER@),
            !r ==> final(self).echo() == old(self).echo(),
    {
        if old_path.is_empty() || new_path.is_empty() {
            return false;
        }
        self.echo_hashes.set(old_path, DELETED_MARKER);
        true
    }

    /// Index of the first download session with id `id`.
    fn find_download(&self, id: &str) -> (r: Option<usize>)
        ensures
            match r {
                Some(i) => download_pos(self.downloads(), id@) == Some(i as int) && i < self.downloads().len(),
                None => download_pos(self.downloads(), id@) is None,
            },
    {
        proof {
            lemma_download_pos_range(self.active_downloads@, id@);
        }
        let mut i: usize = 0;
        while i < self.active_downloads.len()
            invariant
                i <= self.active_downloads@.len(),
                download_pos(self.active_downloads@.take(i as int), id@) is None,
            decreases self.active_downloads@.len() - i,
        {
            proof {
                assert(self.active_downloads@.take(i + 1).drop_last() =~= self.active_downloads@.take(i as int));
            }
            if str_eq(self.active_downloads[i].session_id.as_str(), id) {
                proof {
                    lemma_download_pos_prefix(self.active_downloads@, i + 1, id@);
                }
                return Some(i);
            }
            i += 1;
        }
        proof {
            assert(self.active_downloads@.take(i as int) =~= self.active_downloads@);
        }
        None
    }

    /// Decides on the start of a chunked download: skipped without a session
    /// or path; an empty file to write when there is no chunk; otherwise a
    /// download session is opened (replacing one with the same id).  Missing
    /// sizes default to 0, a missing chunk count to 1, a missing chunk size
    /// to the engine's.  Every other download in progress is kept.
    pub fn on_chunk_download_start(
        &mut self,
        session_id: &str,
        path: &str,
        size: Option<i64>,
        total_chunks: Option<i64>,
        chunk_size: Option<i64>,
    ) -> (r: DownloadStart)
        requires
            old(self).wf(),
        ensures
            final(self).wf(),
            final(self).progress() == old(self).progress(),
            final(self).echo() == old(self).echo(),
            final(self).uploads() == old(self).uploads(),
            session_id@.len() == 0 || path@.len() == 0 ==> r == DownloadStart::Skip && final(self).downloads()
                == old(self).downloads(),
            session_id@.len() > 0 && path@.len() > 0 && spec_chunk_count(total_chunks) == 0 ==> r == DownloadStart::WriteEmpty
                && final(self).downloads() == old(self).downloads(),
            session_id@.len() > 0 && path@.len() > 0 && spec_chunk_count(total_chunks) != 0 ==> r == DownloadStart::Started && ({
                let d = final(self).downloads().last();
                let chunks = spec_chunk_count(total_chunks);
                &&& final(self).downloads().len() > 0
                &&& final(self).downloads().drop_last() == old(self).downloads().filter(not_download(session_id@))
                &&& download_pos(final(self).downloads(), session_id@) == Some(final(self).downloads().len() - 1)
                &&& d.session_id@ == session_id@
                &&& d.path@ == path@
                &&& d.total_chunks == chunks
                &&& d.total_size == (match size { Some(n) => n as usize, None => 0usize })
                &&& d.chunk_size == (match chunk_size { Some(n) => n as usize, None => old(self).spec_chunk_size() })
                &&& d.reassembler.spec_expected() == Some(chunks as u32)
                &&& d.reassembler.spec_session_id() is None
                &&& d.reassembler.spec_chunks() == Map::<u32, Seq<u8>>::empty()
            }),
    {
        let total_size: usize = match size {
            Some(n) => n as usize,
            None => 0,
        };
        let chunks: usize = match total_chunks {
            Some(n) => n as usize,
            None => 1,
        };
        let csize: usize = match chunk_size {
            Some(n) => n as usize,
            None => self.chunk_size,
        };
        if session_id.is_empty() || path.is_empty() {
            return DownloadStart::Skip;
        }
        if chunks == 0 {
            return DownloadStart::WriteEmpty;
        }
        let mut reassembler = ChunkReassembler::new();
        reassembler.set_expected_count(chunks as u32);
        let session = DownloadSession {
            session_id: session_id.to_owned(),
            path: path.to_owned(),
            total_size,
            total_chunks: chunks,
            chunk_size: csize,
            reassembler,
        };
        self.remove_downloads_with_id(session_id);
        self.active_downloads.push(session);
        proof {
            let s = self.active_downloads@;
            assert(s.drop_last() =~= old(self).active_downloads@.filter(not_download(session_id@)));
            lemma_filter_has_no_id(old(self).active_downloads@, session_id@);
        }
        DownloadStart::Started
    }

    /// Drops the download sessions with id `id`.
    fn remove_downloads_with_id(&mut self, id: &str)
        ensures
            final(self).active_downloads@ == old(self).active_downloads@.filter(not_download(id@)),
            final(self).progress == old(self).progress,
            final(self).echo_hashes == old(self).echo_hashes,
            final(self).active_uploads == old(self).active_uploads,
            final(self).chunk_size == old(self).chunk_size,
            final(self).last_activity == old(self).last_activity,
    {
        let mut taken: Vec<DownloadSession> = Vec::new();
        std::mem::swap(&mut taken, &mut self.active_downloads);
        let ghost orig = taken@;
        let mut kept: Vec<DownloadSession> = Vec::new();
        let ghost mut k: int = 0;
        while taken.len() > 0
            invariant
                0 <= k <= orig.len(),
                taken@ == orig.skip(k),
                kept@ == orig.take(k).filter(not_download(id@)),
            decreases taken@.len(),
        {
            let d = taken.remove(0);
            proof {
                assert(d == orig[k]);
                assert(orig.take(k + 1) =~= orig.take(k).push(d));
                orig.take(k).lemma_filter_push(d, not_download(id@));
            }
            if !str_eq(d.session_id.as_str(), id) {
                kept.push(d);
            }
            proof {
                k = k + 1;
                assert(taken@ =~= orig.skip(k));
            }
        }
        proof {
            assert(orig.take(k) =~= orig);
        }
        self.active_downloads = kept;
    }

    /// Takes a binary frame from the server: it is parsed (a malformed frame
    /// is a protocol error), added to the download session it names (none:
    /// ignored; another session's chunk: a protocol error), and when the
    /// session is complete it is closed and its path and reassembled content
    /// are handed back to be written.
    pub fn handle_binary_chunk(&mut self, data: &[u8]) -> (r: Result<Option<(String, Vec<u8>)>, FnsError>)
        requires
            old(self).wf(),
        ensures
            final(self).same_setup(old(self)),
            final(self).wf(),
            final(self).progress() == old(self).progress(),
            final(self).echo() == old(self).echo(),
            final(self).uploads() == old(self).uploads(),
            match spec_parse_frame(data@) {
                None => r matches Err(FnsError::Protocol { .. }) && final(self).downloads() == old(self).downloads(),
                Some((sid, index, payload)) => match download_pos(old(self).downloads(), sid) {
                    None => r matches Ok(None) && final(self).downloads() == old(self).downloads(),
                    Some(i) => {
                        let d = old(self).downloads()[i];
                        let re = d.reassembler;
                        let chunks = re.spec_chunks().insert(index, payload);
                        if re.spec_session_id() is Some && re.spec_session_id() != Some(sid) {
                            &&& r matches Err(FnsError::Protocol { .. })
                            &&& final(self).downloads().len() == old(self).downloads().len()
                            &&& final(self).downloads() == old(self).downloads().update(i, final(self).downloads()[i])
                            &&& same_download_fields(final(self).downloads()[i], d)
                            &&& final(self).downloads()[i].reassembler.spec_chunks() == re.spec_chunks()
                            &&& final(self).downloads()[i].reassembler.spec_expected() == re.spec_expected()
                            &&& final(self).downloads()[i].reassembler.spec_session_id() == re.spec_session_id()
                        } else if !(re.spec_expected() is Some && crate::protocol::frame::all_present(
                            chunks,
                            re.spec_expected().unwrap() as nat,
                        )) {
                            &&& r matches Ok(None)
                            &&& final(self).downloads().len() == old(self).downloads().len()
                            &&& final(self).downloads() == old(self).downloads().update(i, final(self).downloads()[i])
                            &&& same_download_fields(final(self).downloads()[i], d)
                            &&& final(self).downloads()[i].reassembler.spec_chunks() == chunks
                            &&& final(self).downloads()[i].reassembler.spec_expected() == re.spec_expected()
                            &&& final(self).downloads()[i].reassembler.spec_session_id() == Some(sid)
                        } else {
                            &&& r matches Ok(Some((path, bytes)))
                            &&& path@ == d.path@
                            &&& bytes@ == crate::protocol::frame::concat_chunks(chunks, re.spec_expected().unwrap() as nat)
                            &&& final(self).downloads() == old(self).downloads().remove(i)
                        }
                    },
                },
            },
    {
        let parsed = match BinaryChunkParser::parse(data) {
            Ok(p) => p,
            Err(e) => return Err(FnsError::Protocol { message: e }),
        };
        let i = match self.find_download(parsed.session_id.as_str()) {
            Some(i) => i,
            None => return Ok(None),
        };
        let mut session = self.active_downloads.remove(i);
        match session.reassembler.add_chunk(parsed) {
            Ok(complete) => {
                if complete {
                    match session.reassembler.get_data() {
                        Some(bytes) => Ok(Some((session.path, bytes))),
                        None => Err(FnsError::Sync { message: String::from_str("Download incomplete") }),
                    }
                } else {
                    self.active_downloads.insert(i, session);
                    proof {
                        assert(self.active_downloads@.len() == old(self).active_downloads@.len());
                    }
                    Ok(None)
                }
            },
            Err(e) => {
                self.active_downloads.insert(i, session);
                Err(FnsError::Protocol { message: e })
            },
        }
    }

    /// Decides on a local file to upload with content `content`: its hash,
    /// unless the echo of the path is that hash.
    pub fn plan_upload(&self, path: &str, content: &[u8]) -> (r: Option<String>)
        ensures
            match r {
                Some(h) => h@ == spec_hash_bytes(content@) && !self.echo_is(path@, h@),
                None => self.echo_is(path@, spec_hash_bytes(content@)),
            },
    {
        let h = hash_bytes(content);
        if self.echo_hashes.is(path, h.as_str()) {
            None
        } else {
            Some(h)
        }
    }

    /// Counts an upload requested by the server that is not needed (the file
    /// is missing, or its content is the echo).
    pub fn upload_skipped(&mut self)
        requires
            old(self).wf(),
            old(self).progress().total_received() < usize::MAX,
        ensures
            final(self).same_setup(old(self)),
            final(self).wf(),
            final(self).echo() == old(self).echo(),
            final(self).uploads() == old(self).uploads(),
            final(self).downloads() == old(self).downloads(),
            final(self).progress() == (Progress {
                received_upload: (old(self).progress().received_upload + 1) as usize,
                ..old(self).progress()
            }),
    {
        self.progress.received_upload = self.progress.received_upload + 1;
    }

    /// Records an upload that was sent: the session (replacing one with the
    /// same id) and the echo of the uploaded content.
    pub fn upload_started(&mut self, session_id: &str, path: &str, chunk_size: usize, total_chunks: usize, content_hash: &str)
        requires
            old(self).wf(),
        ensures
            final(self).same_setup(old(self)),
            final(self).wf(),
            final(self).progress() == old(self).progress(),
            final(self).downloads() == old(self).downloads(),
            final(self).echo() == old(self).echo().insert(path@, content_hash@),
            final(self).uploads().len() > 0,
            final(self).uploads().drop_last() == old(self).uploads().filter(not_upload(session_id@)),
            final(self).uploads().last().session_id@ == session_id@,
            final(self).uploads().last().path@ == path@,
            final(self).uploads().last().chunk_size == chunk_size,
            final(self).uploads().last().total_chunks == total_chunks,
            final(self).uploads().last().chunks_sent == total_chunks,
    {
        let mut taken: Vec<UploadSession> = Vec::new();
        std::mem::swap(&mut taken, &mut self.active_uploads);
        let ghost orig = taken@;
        let mut kept: Vec<UploadSession> = Vec::new();
        let ghost mut k: int = 0;
        while taken.len() > 0
            invariant
                0 <= k <= orig.len(),
                taken@ == orig.skip(k),
                kept@ == orig.take(k).filter(not_upload(session_id@)),
            decreases taken@.len(),
        {
            let u = taken.remove(0);
            proof {
                assert(u == orig[k]);
                assert(orig.take(k + 1) =~= orig.take(k).push(u));
                orig.take(k).lemma_filter_push(u, not_upload(session_id@));
            }
            if !str_eq(u.session_id.as_str(), session_id) {
                kept.push(u);
            }
            proof {
                k = k + 1;
                assert(taken@ =~= orig.skip(k));
            }
        }
        proof {
            assert(orig.take(k) =~= orig);
        }
        kept.push(UploadSession {
            session_id: session_id.to_owned(),
            path: path.to_owned(),
            chunk_size,
            total_chunks,
            chunks_sent: total_chunks,
        });
        proof {
            assert(kept@.drop_last() =~= orig.filter(not_upload(session_id@)));
        }
        self.active_uploads = kept;
        self.echo_hashes.set(path, content_hash);
    }

    /// Takes the server's acknowledgement of an upload: the session with id
    /// `session_id` (or, without an id, the first one for `path`) is closed
    /// and counted; an unknown one changes nothing.
    pub fn on_upload_ack(&mut self, session_id: &str, path: &str) -> (r: bool)
        requires
            old(self).wf(),
            old(self).progress().total_received() < usize::MAX,
        ensures
            final(self).same_setup(old(self)),
            final(self).wf(),
            final(self).echo() == old(self).echo(),
            final(self).downloads() == old(self).downloads(),
            r == (upload_pos(old(self).uploads(), session_id@, path@) is Some),
            r ==> final(self).uploads() == old(self).uploads().remove(
                upload_pos(old(self).uploads(), session_id@, path@).unwrap(),
            ) && final(self).progress() == (Progress {
                received_upload: (old(self).progress().received_upload + 1) as usize,
                ..old(self).progress()
            }),
            !r ==> final(self).uploads() == old(self).uploads() && final(self).progress() == old(self).progress(),
    {
        let by_id = !session_id.is_empty();
        let mut i: usize = 0;
        while i < self.active_uploads.len()
            invariant
                i <= self.active_uploads@.len(),
                by_id == (session_id@.len() > 0),
                self.wf(),
                self.progress().total_received() < usize::MAX,
                self.progress() == old(self).progress(),
                self.echo() == old(self).echo(),
                self.uploads() == old(self).uploads(),
                self.downloads() == old(self).downloads(),
                self.same_setup(old(self)),
                upload_pos(self.active_uploads@.take(i as int), session_id@, path@) is None,
            decreases self.active_uploads@.len() - i,
        {
            proof {
                assert(self.active_uploads@.take(i + 1).drop_last() =~= self.active_uploads@.take(i as int));
            }
            let hit = if by_id {
                str_eq(self.active_uploads[i].session_id.as_str(), session_id)
            } else {
                str_eq(self.active_uploads[i].path.as_str(), path)
            };
            if hit {
                proof {
                    lemma_upload_pos_prefix(self.active_uploads@, i + 1, session_id@, path@);
                    lemma_upload_pos_range(self.active_uploads@, session_id@, path@);
                }
                let _closed = self.active_uploads.remove(i);
                self.progress.received_upload = self.progress.received_upload + 1;
                return true;
            }
            i += 1;
        }
        proof {
            assert(self.active_uploads@.take(i as int) =~= self.active_uploads@);
        }
        false
    }

    /// Forgets the echo of `path` before its deletion is pushed.
    pub fn begin_push_delete(&mut self, path: &str)
        requires
            old(self).wf(),
        ensures
            final(self).same_setup(old(self)),
            final(self).wf(),
            final(self).progress() == old(self).progress(),
            final(self).uploads() == old(self).uploads(),
            final(self).downloads() == old(self).downloads(),
            final(self).echo() == old(self).echo().remove(path@),
    {
        self.echo_hashes.forget(path);
    }

    /// Records that the deletion of `path` was pushed.
    pub fn delete_pushed(&mut self, path: &str)
        requires
            old(self).wf(),
        ensures
            final(self).same_setup(old(self)),
            final(self).wf(),
            final(self).progress() == old(self).progress(),
            final(self).uploads() == old(self).uploads(),
            final(self).downloads() == old(self).downloads(),
            final(self).echo() == old(self).echo().insert(path@, DELETED_MARKER@),
    {
        self.echo_hashes.set(path, DELETED_MARKER);
    }
}

/// The bytes `data[from..to]`.
fn byte_range(data: &[u8], from: usize, to: usize) -> (r: Vec<u8>)
    requires
        from <= to <= data@.len(),
    ensures
        r@ == data@.subrange(from as int, to as int),
{
    let mut out: Vec<u8> = Vec::new();
    let mut i = from;
    while i < to
        invariant
            from <= i <= to <= data@.len(),
            out@ == data@.subrange(from as int, i as int),
        decreases to - i,
    {
        out.push(data[i]);
        i += 1;
        proof {
            assert(out@ =~= data@.subrange(from as int, i as int));
        }
    }
    out
}

/// The number of chunks of `len` bytes in chunks of `chunk_size` (at least
/// one, for an empty file).
pub open spec fn spec_chunk_total(len: nat, chunk_size: nat) -> nat {
    if len == 0 {
        1
    } else {
        ((len + chunk_size - 1) as nat) / chunk_size
    }
}

/// The chunked frames of non-empty data number `ceil(len / chunk_size)`.
proof fn lemma_chunk_frames_len(sid: Seq<u8>, data: Seq<u8>, chunk_size: nat, index: nat)
    requires
        chunk_size > 0,
    ensures
        chunk_frames(sid, data, chunk_size, index).len() == ((data.len() + chunk_size - 1) as nat) / chunk_size,
    decreases data.len(),
{
    let len = data.len();
    let cs = chunk_size;
    if len == 0 {
        assert(((cs - 1) as nat) / cs == 0) by (nonlinear_arith)
            requires
                cs > 0,
        ;
    } else if cs >= len {
        assert(data.take(len as int) =~= data);
        assert(data.skip(len as int) =~= Seq::<u8>::empty());
        assert(chunk_frames(sid, data.skip(len as int), cs, index + 1).len() == 0);
        assert(chunk_frames(sid, data, cs, index).len() == 1);
        assert(((len + cs - 1) as nat) / cs == 1) by (nonlinear_arith)
            requires
                cs >= len,
                len > 0,
        ;
    } else {
        lemma_chunk_frames_len(sid, data.skip(cs as int), cs, index + 1);
        assert(data.skip(cs as int).len() == len - cs);
        assert(chunk_frames(sid, data, cs, index).len() == 1 + chunk_frames(sid, data.skip(cs as int), cs, index + 1).len());
        assert(((len + cs - 1) as nat) / cs == ((len - cs + cs - 1) as nat) / cs + 1) by (nonlinear_arith)
            requires
                cs > 0,
                len > cs,
        ;
    }
}

/// The frames that upload `data` for session `session_id` in chunks of
/// `chunk_size` bytes (one empty frame for an empty file), with the number
/// of chunks, `ceil(len / chunk_size)` (1 for an empty file).
pub fn upload_frames_for(session_id: &str, chunk_size: usize, data: &[u8]) -> (r: (Vec<Vec<u8>>, usize))
    requires
        data@.len() == 0 || (chunk_size > 0 && data@.len() + chunk_size - 1 <= usize::MAX
            && spec_chunk_total(data@.len(), chunk_size as nat) <= u32::MAX),
    ensures
        r.0@.map_values(|f: Vec<u8>| f@) == upload_frames(session_id.spec_bytes(), data@, chunk_size as nat),
        r.1 == spec_chunk_total(data@.len(), chunk_size as nat),
{
    let ghost sid = session_id.spec_bytes();
    let total = data.len();
    let mut frames: Vec<Vec<u8>> = Vec::new();
    if total == 0 {
        let empty: Vec<u8> = Vec::new();
        frames.push(build_binary_chunk(session_id, 0, empty.as_slice()));
        proof {
            assert(frames@.map_values(|f: Vec<u8>| f@) =~= upload_frames(sid, data@, chunk_size as nat));
        }
        return (frames, 1);
    }
    let total_chunks = (total + (chunk_size - 1)) / chunk_size;
    proof {
        lemma_chunk_frames_len(sid, data@, chunk_size as nat, 0);
    }
    let mut offset: usize = 0;
    let mut index: u32 = 0;
    proof {
        assert(data@.skip(0) =~= data@);
        assert(frames@.map_values(|f: Vec<u8>| f@) + chunk_frames(sid, data@, chunk_size as nat, 0) =~= chunk_frames(sid, data@, chunk_size as nat, 0));
    }
    while offset < total
        invariant
            chunk_size > 0,
            total == data@.len(),
            total + chunk_size - 1 <= usize::MAX,
            offset <= total,
            sid == session_id.spec_bytes(),
            frames@.len() == index,
            frames@.map_values(|f: Vec<u8>| f@) + chunk_frames(sid, data@.skip(offset as int), chunk_size as nat, index as nat)
                == chunk_frames(sid, data@, chunk_size as nat, 0),
            chunk_frames(sid, data@, chunk_size as nat, 0).len() <= u32::MAX,
        decreases total - offset,
    {
        let end: usize = if offset + chunk_size < total { offset + chunk_size } else { total };
        let chunk = byte_range(data, offset, end);
        let frame = build_binary_chunk(session_id, index, chunk.as_slice());
        let ghost before = frames@.map_values(|f: Vec<u8>| f@);
        let ghost rest = data@.skip(offset as int);
        proof {
            assert(chunk@ =~= rest.take((end - offset) as int));
            assert(rest.skip((end - offset) as int) =~= data@.skip(end as int));
            let tail = chunk_frames(sid, data@.skip(end as int), chunk_size as nat, index as nat + 1);
            assert(chunk_frames(sid, rest, chunk_size as nat, index as nat) == seq![frame@] + tail);
            assert(before.len() == index);
            assert(index < u32::MAX) by {
                assert(chunk_frames(sid, data@, chunk_size as nat, 0).len() == before.len() + 1 + tail.len());
            }
        }
        frames.push(frame);
        proof {
            let tail = chunk_frames(sid, data@.skip(end as int), chunk_size as nat, index as nat + 1);
            assert(frames@.map_values(|f: Vec<u8>| f@) =~= before.push(frame@));
            assert(before.push(frame@) + tail =~= before + (seq![frame@] + tail));
        }
        offset = end;
        index = index + 1;
    }
    proof {
        assert(data@.skip(offset as int) =~= Seq::<u8>::empty());
        assert(frames@.map_values(|f: Vec<u8>| f@) + Seq::<Seq<u8>>::empty() =~= frames@.map_values(|f: Vec<u8>| f@));
    }
    (frames, total_chunks)
}

/// The first session with an id found among the first `n` is the `n - 1`-th
/// when none before it has that id and it has.
proof fn lemma_download_pos_prefix(s: Seq<DownloadSession>, n: int, id: Seq<char>)
    requires
        0 < n <= s.len(),
        download_pos(s.take(n - 1), id) is None,
        s[n - 1].session_id@ == id,
    ensures
        download_pos(s, id) == Some(n - 1),
    decreases s.len(),
{
    assert(s.take(n).drop_last() =~= s.take(n - 1));
    if n < s.len() {
        assert(s.drop_last().take(n - 1) =~= s.take(n - 1));
        lemma_download_pos_prefix(s.drop_last(), n, id);
    } else {
        assert(s.take(n) =~= s);
    }
}

/// The first session with an id is within range and has that id.
proof fn lemma_download_pos_range(s: Seq<DownloadSession>, id: Seq<char>)
    ensures
        download_pos(s, id) matches Some(i) ==> 0 <= i < s.len() && s[i].session_id@ == id,
    decreases s.len(),
{
    if s.len() > 0 {
        lemma_download_pos_range(s.drop_last(), id);
    }
}

/// The first upload session for an id (or path) is within range.
proof fn lemma_upload_pos_range(s: Seq<UploadSession>, id: Seq<char>, path: Seq<char>)
    ensures
        upload_pos(s, id, path) matches Some(i) ==> 0 <= i < s.len(),
    decreases s.len(),
{
    if s.len() > 0 {
        lemma_upload_pos_range(s.drop_last(), id, path);
    }
}

/// As [`lemma_download_pos_prefix`], for upload sessions.
proof fn lemma_upload_pos_prefix(s: Seq<UploadSession>, n: int, id: Seq<char>, path: Seq<char>)
    requires
        0 < n <= s.len(),
        upload_pos(s.take(n - 1), id, path) is None,
        (if id.len() > 0 { s[n - 1].session_id@ == id } else { s[n - 1].path@ == path }),
    ensures
        upload_pos(s, id, path) == Some(n - 1),
    decreases s.len(),
{
    assert(s.take(n).drop_last() =~= s.take(n - 1));
    if n < s.len() {
        assert(s.drop_last().take(n - 1) =~= s.take(n - 1));
        lemma_upload_pos_prefix(s.drop_last(), n, id, path);
    } else {
        assert(s.take(n) =~= s);
    }
}

/// After the sessions with an id are dropped and a new one with that id is
/// added at the end, the new one is the first with that id.
proof fn lemma_filter_has_no_id(s: Seq<DownloadSession>, id: Seq<char>)
    ensures
        download_pos(s.filter(not_download(id)), id) is None,
    decreases s.len(),
{
    let f = s.filter(not_download(id));
    if s.len() > 0 {
        lemma_filter_has_no_id(s.drop_last(), id);
        assert(s =~= s.drop_last().push(s.last()));
        s.drop_last().lemma_filter_push(s.last(), not_download(id));
        let f0 = s.drop_last().filter(not_download(id));
        assert(f0.push(s.last()).drop_last() =~= f0);
    }
}

/// Echo suppression for attachments: once `content` was written to `path`
/// at the server's request (`file_written`) or seen there (`content_seen`),
/// the same content is not uploaded again (`plan_upload` gives `None`);
/// once a deletion of `path` was pushed (`delete_pushed`), the server's
/// deletion of it is suppressed (`on_sync_delete`).
pub proof fn lemma_file_echo_suppression(
    before: FileSync,
    written: FileSync,
    deleted: FileSync,
    path: Seq<char>,
    content: Seq<u8>,
)
    requires
        written.echo() == before.echo().insert(path, spec_hash_bytes(content)),
        deleted.echo() == before.echo().insert(path, DELETED_MARKER@),
    ensures
        written.echo_is(path, spec_hash_bytes(content)),
        deleted.echo_is(path, DELETED_MARKER@),
{
}

/// The payloads of the chunks of `data`, `chunk_size` bytes each (the last
/// one shorter), in order.
pub open spec fn chunk_payloads(data: Seq<u8>, chunk_size: nat) -> Seq<Seq<u8>>
    decreases data.len(),
{
    if data.len() == 0 || chunk_size == 0 {
        Seq::empty()
    } else {
        let n = if chunk_size < data.len() { chunk_size } else { data.len() };
        seq![data.take(n as int)] + chunk_payloads(data.skip(n as int), chunk_size)
    }
}

/// The byte sequences of `s` one after another.
pub open spec fn flatten_bytes(s: Seq<Seq<u8>>) -> Seq<u8>
    decreases s.len(),
{
    if s.len() == 0 {
        Seq::empty()
    } else {
        s[0] + flatten_bytes(s.drop_first())
    }
}

/// The chunk frames are the chunk payloads, framed with consecutive indices.
proof fn lemma_chunk_frames_payloads(sid: Seq<u8>, data: Seq<u8>, chunk_size: nat, index: nat)
    requires
        chunk_size > 0,
    ensures
        chunk_frames(sid, data, chunk_size, index).len() == chunk_payloads(data, chunk_size).len(),
        forall|k: int|
            0 <= k < chunk_payloads(data, chunk_size).len() ==> #[trigger] chunk_frames(sid, data, chunk_size, index)[k]
                == spec_frame(sid, (index + k) as u32, chunk_payloads(data, chunk_size)[k]),
    decreases data.len(),
{
    if data.len() > 0 {
        let n = if chunk_size < data.len() { chunk_size } else { data.len() };
        lemma_chunk_frames_payloads(sid, data.skip(n as int), chunk_size, index + 1);
        let frames = chunk_frames(sid, data, chunk_size, index);
        let pays = chunk_payloads(data, chunk_size);
        let rest_frames = chunk_frames(sid, data.skip(n as int), chunk_size, index + 1);
        let rest_pays = chunk_payloads(data.skip(n as int), chunk_size);
        assert forall|k: int| 0 <= k < pays.len() implies #[trigger] frames[k] == spec_frame(
            sid,
            (index + k) as u32,
            pays[k],
        ) by {
            if k > 0 {
                assert(frames[k] == rest_frames[k - 1]);
                assert(pays[k] == rest_pays[k - 1]);
                assert(index + 1 + (k - 1) == index + k);
            }
        }
    }
}

/// The chunk payloads, one after another, are the data.
proof fn lemma_chunk_payloads_flatten(data: Seq<u8>, chunk_size: nat)
    requires
        chunk_size > 0,
    ensures
        flatten_bytes(chunk_payloads(data, chunk_size)) == data,
    decreases data.len(),
{
    if data.len() == 0 {
        assert(flatten_bytes(chunk_payloads(data, chunk_size)) =~= data);
    } else {
        let n = if chunk_size < data.len() { chunk_size } else { data.len() };
        lemma_chunk_payloads_flatten(data.skip(n as int), chunk_size);
        let pays = chunk_payloads(data, chunk_size);
        assert(pays.drop_first() =~= chunk_payloads(data.skip(n as int), chunk_size));
        assert(data.take(n as int) + data.skip(n as int) =~= data);
    }
}

/// Flattening after appending one more sequence appends its bytes.
proof fn lemma_flatten_push(s: Seq<Seq<u8>>, x: Seq<u8>)
    ensures
        flatten_bytes(s.push(x)) == flatten_bytes(s) + x,
    decreases s.len(),
{
    if s.len() == 0 {
        assert(s.push(x).drop_first() =~= Seq::<Seq<u8>>::empty());
        assert(flatten_bytes(Seq::<Seq<u8>>::empty()) == Seq::<u8>::empty());
        assert(s.push(x)[0] == x);
        assert(flatten_bytes(s.push(x)) =~= x + Seq::<u8>::empty());
        assert(x + Seq::<u8>::empty() =~= x);
        assert(flatten_bytes(s) + x =~= x);
    } else {
        lemma_flatten_push(s.drop_first(), x);
        assert(s.push(x).drop_first() =~= s.drop_first().push(x));
        assert(flatten_bytes(s.push(x)) =~= s[0] + (flatten_bytes(s.drop_first()) + x));
    }
}

/// Concatenating the chunks of a map that holds the first `n` payloads of
/// `s` gives those payloads one after another.
proof fn lemma_concat_chunks_flatten(m: Map<u32, Seq<u8>>, s: Seq<Seq<u8>>, n: nat)
    requires
        n <= s.len(),
        n <= u32::MAX + 1,
        forall|k: int| 0 <= k < n ==> #[trigger] m[k as u32] == s[k],
    ensures
        crate::protocol::frame::concat_chunks(m, n) == flatten_bytes(s.take(n as int)),
    decreases n,
{
    if n == 0 {
        assert(s.take(0) =~= Seq::<Seq<u8>>::empty());
    } else {
        lemma_concat_chunks_flatten(m, s, (n - 1) as nat);
        lemma_flatten_push(s.take(n - 1), s[n - 1]);
        assert(s.take(n - 1).push(s[n - 1]) =~= s.take(n as int));
        assert(m[(n - 1) as u32] == s[n - 1]);
    }
}

/// Binary chunking: the frames that upload a non-empty file for session
/// `sid` each name that session and their own position as chunk index, and
/// the payloads they carry, gathered by index and concatenated in index
/// order as the download side does, give back the file.
pub proof fn lemma_upload_frames_reassemble(sid: Seq<char>, data: Seq<u8>, chunk_size: nat, m: Map<u32, Seq<u8>>)
    requires
        vstd::utf8::encode_utf8(sid).len() <= crate::protocol::frame::SESSION_ID_LEN,
        sid.len() == 0 || sid.last() != '\0',
        chunk_size > 0,
        data.len() > 0,
        upload_frames(vstd::utf8::encode_utf8(sid), data, chunk_size).len() <= u32::MAX,
        forall|k: int|
            0 <= k < upload_frames(vstd::utf8::encode_utf8(sid), data, chunk_size).len() ==> m[k as u32]
                == (#[trigger] spec_parse_frame(upload_frames(vstd::utf8::encode_utf8(sid), data, chunk_size)[k])).unwrap().2,
    ensures
        forall|k: int|
            0 <= k < upload_frames(vstd::utf8::encode_utf8(sid), data, chunk_size).len() ==> (#[trigger] spec_parse_frame(
                upload_frames(vstd::utf8::encode_utf8(sid), data, chunk_size)[k],
            ) matches Some((s, i, _)) && s == sid && i == k),
        crate::protocol::frame::concat_chunks(m, upload_frames(vstd::utf8::encode_utf8(sid), data, chunk_size).len())
            == data,
{
    let b = vstd::utf8::encode_utf8(sid);
    let frames = upload_frames(b, data, chunk_size);
    let pays = chunk_payloads(data, chunk_size);
    lemma_chunk_frames_payloads(b, data, chunk_size, 0);
    assert forall|k: int| 0 <= k < frames.len() implies #[trigger] spec_parse_frame(frames[k]) == Some(
        (sid, k as u32, pays[k]),
    ) by {
        assert(frames[k] == spec_frame(b, (0 + k) as u32, pays[k]));
        crate::protocol::frame::lemma_frame_roundtrip(sid, k as u32, pays[k]);
    }
    assert forall|k: int| 0 <= k < frames.len() implies #[trigger] m[k as u32] == pays[k] by {
        assert(spec_parse_frame(frames[k]) == Some((sid, k as u32, pays[k])));
    }
    lemma_concat_chunks_flatten(m, pays, frames.len());
    assert(pays.take(frames.len() as int) =~= pays);
    lemma_chunk_payloads_flatten(data, chunk_size);
}

/// How each kind of message is named on the wire after the object `File`:
/// the protocol's verb for it (empty for `Ignore`).
pub open spec fn file_message_name(k: FileMessage) -> Seq<char> {
    match k {
        FileMessage::Update => "SyncUpdate"@,
        FileMessage::Delete => "SyncDelete"@,
        FileMessage::Rename => "SyncRename"@,
        FileMessage::Mtime => "SyncMtime"@,
        FileMessage::ChunkDownload => "SyncChunkDownload"@,
        FileMessage::Upload => "Upload"@,
        FileMessage::UploadAck => "UploadAck"@,
        FileMessage::End => "SyncEnd"@,
        _ => Seq::empty(),
    }
}

/// During a file sync exchange, an action is handled as kind `k` exactly when its
/// wire name is `File` followed by the name of that kind, so every such action
/// reaches its own handler and none is dropped or sent to another.
pub proof fn lemma_file_message_by_name(a: ServerAction, k: FileMessage)
    requires
        k != FileMessage::Ignore,
    ensures
        spec_file_message(a) == k <==> server_action_name(a) == "File"@ + file_message_name(k),
{
    let b = match k {
        FileMessage::Update => ServerAction::FileSyncUpdate,
        FileMessage::Delete => ServerAction::FileSyncDelete,
        FileMessage::Rename => ServerAction::FileSyncRename,
        FileMessage::Mtime => ServerAction::FileSyncMtime,
        FileMessage::ChunkDownload => ServerAction::FileSyncChunkDownload,
        FileMessage::Upload => ServerAction::FileUpload,
        FileMessage::UploadAck => ServerAction::FileUploadAck,
        FileMessage::End => ServerAction::FileSyncEnd,
        _ => ServerAction::FileSyncUpdate,
    };
    match k {
        FileMessage::Update => {
            reveal_strlit("File");
            reveal_strlit("SyncUpdate");
            reveal_strlit("FileSyncUpdate");
            assert("File"@ + "SyncUpdate"@ =~= "FileSyncUpdate"@);
        },
        FileMessage::Delete => {
            reveal_strlit("File");
            reveal_strlit("SyncDelete");
            reveal_strlit("FileSyncDelete");
            assert("File"@ + "SyncDelete"@ =~= "FileSyncDelete"@);
        },
        FileMessage::Rename => {
            reveal_strlit("File");
            reveal_strlit("SyncRename");
            reveal_strlit("FileSyncRename");
            assert("File"@ + "SyncRename"@ =~= "FileSyncRename"@);
        },
        FileMessage::Mtime => {
            reveal_strlit("File");
            reveal_strlit("SyncMtime");
            reveal_strlit("FileSyncMtime");
            assert("File"@ + "SyncMtime"@ =~= "FileSyncMtime"@);
        },
        FileMessage::ChunkDownload => {
            reveal_strlit("File");
            reveal_strlit("SyncChunkDownload");
            reveal_strlit("FileSyncChunkDownload");
            assert("File"@ + "SyncChunkDownload"@ =~= "FileSyncChunkDownload"@);
        },
        FileMessage::Upload => {
            reveal_strlit("File");
            reveal_strlit("Upload");
            reveal_strlit("FileUpload");
            assert("File"@ + "Upload"@ =~= "FileUpload"@);
        },
        FileMessage::UploadAck => {
            reveal_strlit("File");
            reveal_strlit("UploadAck");
            reveal_strlit("FileUploadAck");
            assert("File"@ + "UploadAck"@ =~= "FileUploadAck"@);
        },
        FileMessage::End => {
            reveal_strlit("File");
            reveal_strlit("SyncEnd");
            reveal_strlit("FileSyncEnd");
            assert("File"@ + "SyncEnd"@ =~= "FileSyncEnd"@);
        },
        _ => {},
    }
    assert(spec_file_message(b) == k);
    assert(server_action_name(b) == "File"@ + file_message_name(k));
    lemma_action_name_roundtrip(Action::Server(a));
    lemma_action_name_roundtrip(Action::Server(b));
    if server_action_name(a) == server_action_name(b) {
        assert(action_name(Action::Server(a)) == action_name(Action::Server(b)));
    }
}

} // verus!
