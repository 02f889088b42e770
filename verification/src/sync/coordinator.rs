//! The coordinator: the state shared by the engines of a sync session, which
//! paths are synced at all, which engine a watcher event goes to, which
//! handler a server message goes to, and when to give up reconnecting.
//!
//! The connection, the message loops and the timers belong to the
//! application, which asks the coordinator at each step what to do.

use vstd::hash_set::StringHashSet;
use vstd::prelude::*;
use crate::config::{AppConfig, ClientConfig, ServerConfig, SyncConfig, LoggingConfig};
use crate::debounce::WatchEventView;
use crate::error::FnsError;
use crate::json::{i64_member, json_i64_member, json_parsed, json_str_member, parse_json, str_member};
use crate::paths::{chars_contain, chars_end_with, chars_start_with, has_infix, has_prefix, has_suffix, join_path, strip_vault_prefix, vault_relative};
use crate::protocol::actions::{action_name, lemma_action_name_roundtrip, server_action_name, Action, ClientAction, ServerAction};
use crate::state::SyncState;
use crate::sync::file::{spec_file_message, FileMessage, FileSync};
use crate::sync::folder::FolderSync;
use crate::sync::note::{spec_note_message, NoteMessage, NoteSync};
use crate::sync::rules::{excluded_by_patterns, matches_some_pattern};
use crate::sync::setting::{spec_setting_config_path, spec_setting_message, SettingMessage, SettingSync};
use crate::text::{str_chars, str_eq};
use crate::watcher::WatchEvent;
use crate::ws_client::{retries_exhausted, spec_delay, WsClient};

verus! {

/// What a sync operation achieved.
#[derive(Debug, Clone)]
pub struct SyncResult {
    /// Notes synced.
    pub notes_synced: usize,
    /// Files synced.
    pub files_synced: usize,
    /// Settings synced.
    pub settings_synced: usize,
    /// Folders synced.
    pub folders_synced: usize,
    /// Errors met along the way.
    pub errors: Vec<String>,
}

impl SyncResult {
    /// An empty result.
    pub fn new() -> (r: Self)
        ensures
            r.notes_synced == 0,
            r.files_synced == 0,
            r.settings_synced == 0,
            r.folders_synced == 0,
            r.errors@.len() == 0,
    {
        SyncResult { notes_synced: 0, files_synced: 0, settings_synced: 0, folders_synced: 0, errors: Vec::new() }
    }

    /// Whether any error was met.
    pub fn has_errors(&self) -> (r: bool)
        ensures
            r == (self.errors@.len() > 0),
    {
        self.errors.len() > 0
    }

    /// Items synced in all.
    pub fn total_synced(&self) -> (r: usize)
        requires
            self.notes_synced + self.files_synced + self.settings_synced + self.folders_synced <= usize::MAX,
        ensures
            r == self.notes_synced + self.files_synced + self.settings_synced + self.folders_synced,
    {
        self.notes_synced + self.files_synced + self.settings_synced + self.folders_synced
    }
}

impl Default for SyncResult {
    fn default() -> (r: Self)
        ensures
            r.notes_synced == 0,
            r.files_synced == 0,
            r.settings_synced == 0,
            r.folders_synced == 0,
            r.errors@.len() == 0,
    {
        SyncResult::new()
    }
}

/// A local change to push to the server, by engine.
#[derive(Debug, Clone, PartialEq, Eq)]
pub enum PushOp {
    SettingModify(String),
    SettingDelete(String),
    SettingRename { new_path: String, old_path: String },
    NoteModify(String),
    NoteDelete(String),
    NoteRename { new_path: String, old_path: String },
    FileUpload(String),
    FileDelete(String),
}

/// A push operation with its paths as character sequences.
pub enum PushOpView {
    SettingModify(Seq<char>),
    SettingDelete(Seq<char>),
    SettingRename(Seq<char>, Seq<char>),
    NoteModify(Seq<char>),
    NoteDelete(Seq<char>),
    NoteRename(Seq<char>, Seq<char>),
    FileUpload(Seq<char>),
    FileDelete(Seq<char>),
}

impl View for PushOp {
    type V = PushOpView;

    open spec fn view(&self) -> PushOpView {
        match self {
            PushOp::SettingModify(p) => PushOpView::SettingModify(p@),
            PushOp::SettingDelete(p) => PushOpView::SettingDelete(p@),
            PushOp::SettingRename { new_path, old_path } => PushOpView::SettingRename(new_path@, old_path@),
            PushOp::NoteModify(p) => PushOpView::NoteModify(p@),
            PushOp::NoteDelete(p) => PushOpView::NoteDelete(p@),
            PushOp::NoteRename { new_path, old_path } => PushOpView::NoteRename(new_path@, old_path@),
            PushOp::FileUpload(p) => PushOpView::FileUpload(p@),
            PushOp::FileDelete(p) => PushOpView::FileDelete(p@),
        }
    }
}

/// Where a server message goes in continuous mode.
#[derive(Debug, Clone, Copy, PartialEq, Eq, Structural)]
pub enum ServerRoute {
    NoteModify,
    NoteDelete,
    NoteRename,
    NoteMtime,
    Acknowledged,
    FileUpdate,
    FileDelete,
    FileChunkDownload,
    FileUpload,
    FileUploadAck,
    FileDeleteAck,
    SettingModify,
    SettingDelete,
    SettingModifyAck,
    Ignore,
}

/// Where each action goes in continuous mode.
pub open spec fn spec_route(action: Action) -> ServerRoute {
    match action {
        Action::Server(a) => match a {
            ServerAction::NoteSyncModify => ServerRoute::NoteModify,
            ServerAction::NoteSyncDelete => ServerRoute::NoteDelete,
            ServerAction::NoteSyncRename => ServerRoute::NoteRename,
            ServerAction::NoteSyncMtime => ServerRoute::NoteMtime,
            ServerAction::NoteModifyAck | ServerAction::NoteDeleteAck => ServerRoute::Acknowledged,
            ServerAction::FileSyncUpdate => ServerRoute::FileUpdate,
            ServerAction::FileSyncDelete => ServerRoute::FileDelete,
            ServerAction::FileSyncChunkDownload => ServerRoute::FileChunkDownload,
            ServerAction::FileUpload => ServerRoute::FileUpload,
            ServerAction::FileUploadAck => ServerRoute::FileUploadAck,
            ServerAction::FileDeleteAck => ServerRoute::FileDeleteAck,
            ServerAction::SettingSyncModify => ServerRoute::SettingModify,
            ServerAction::SettingSyncDelete => ServerRoute::SettingDelete,
            ServerAction::SettingModifyAck => ServerRoute::SettingModifyAck,
            _ => ServerRoute::Ignore,
        },
        Action::Client(_) => ServerRoute::Ignore,
    }
}

/// Routes a server message by its action, in continuous mode.
pub fn route_server_action(action: Action) -> (r: ServerRoute)
    ensures
        r == spec_route(action),
{
    match action {
        Action::Server(a) => match a {
            ServerAction::NoteSyncModify => ServerRoute::NoteModify,
            ServerAction::NoteSyncDelete => ServerRoute::NoteDelete,
            ServerAction::NoteSyncRename => ServerRoute::NoteRename,
            ServerAction::NoteSyncMtime => ServerRoute::NoteMtime,
            ServerAction::NoteModifyAck | ServerAction::NoteDeleteAck => ServerRoute::Acknowledged,
            ServerAction::FileSyncUpdate => ServerRoute::FileUpdate,
            ServerAction::FileSyncDelete => ServerRoute::FileDelete,
            ServerAction::FileSyncChunkDownload => ServerRoute::FileChunkDownload,
            ServerAction::FileUpload => ServerRoute::FileUpload,
            ServerAction::FileUploadAck => ServerRoute::FileUploadAck,
            ServerAction::FileDeleteAck => ServerRoute::FileDeleteAck,
            ServerAction::SettingSyncModify => ServerRoute::SettingModify,
            ServerAction::SettingSyncDelete => ServerRoute::SettingDelete,
            ServerAction::SettingModifyAck => ServerRoute::SettingModifyAck,
            _ => ServerRoute::Ignore,
        },
        Action::Client(_) => ServerRoute::Ignore,
    }
}

/// The code and message of a text that is a server error: a JSON object
/// (the text starts with `{` and mentions `"code"`) with an integer `code`
/// and a text `message`.
pub open spec fn spec_server_error(text: Seq<char>) -> Option<(i64, Seq<char>)> {
    if has_prefix(text, seq!['{']) && has_infix(text, "\"code\""@) {
        match json_parsed(text) {
            Some(v) => match (json_i64_member(v, "code"@), json_str_member(v, "message"@)) {
                (Some(c), Some(m)) => Some((c, m)),
                _ => None,
            },
            None => None,
        }
    } else {
        None
    }
}

/// The server error that the `code` and `message` members of a parsed error
/// text make: there is one exactly when both are present.
pub fn error_from_members(code: Option<i64>, message: Option<String>) -> (r: Option<(i64, String)>)
    ensures
        match (code, message) {
            (Some(c), Some(m)) => r matches Some((rc, rm)) && rc == c && rm@ == m@,
            _ => r is None,
        },
{
    match (code, message) {
        (Some(c), Some(m)) => Some((c, m)),
        _ => None,
    }
}

/// The code and message of a server error text, or `None` for an ordinary
/// message (see [`spec_server_error`]).
pub fn server_error(text: &str) -> (r: Option<(i64, String)>)
    ensures
        match r {
            Some((c, m)) => spec_server_error(text@) == Some((c, m@)),
            None => spec_server_error(text@) is None,
        },
{
    proof {
        reveal_strlit("\"code\"");
        reveal_strlit("code");
        reveal_strlit("message");
    }
    let v = str_chars(text);
    let mut brace: Vec<char> = Vec::new();
    brace.push('{');
    proof {
        assert(brace@ =~= seq!['{']);
    }
    if chars_start_with(&v, &brace) && chars_contain(&v, &str_chars("\"code\"")) {
        match parse_json(text) {
            Some(v) => error_from_members(i64_member(&v, "code"), str_member(&v, "message")),
            None => None,
        }
    } else {
        None
    }
}

/// Whether a vault-relative path is in a config directory, by the sync
/// configuration.
pub open spec fn spec_config_file(rel: Seq<char>, sync: SyncConfig) -> bool {
    spec_setting_config_path(rel, sync.config_sync_dirs@.map_values(|s: String| s@), sync.sync_config)
}

/// Whether the coordinator leaves a vault-relative path out: editors'
/// backups, Finder metadata, temporary files, config paths when config sync
/// is off, and the exclude patterns.
pub open spec fn spec_coordinator_excluded(rel: Seq<char>, sync: SyncConfig) -> bool {
    has_infix(rel, ".~#"@) || rel == ".DS_Store"@ || has_suffix(rel, "/.DS_Store"@) || has_prefix(rel, ".tmp"@)
        || has_suffix(rel, ".tmp"@) || has_infix(rel, ".tmp."@) || (!sync.sync_config && spec_config_file(rel, sync))
        || matches_some_pattern(rel, sync.exclude_patterns@.map_values(|s: String| s@))
}

/// The push for a changed local file: to the setting engine for a config
/// path, to the note engine for a note, to the file engine otherwise; nothing
/// when that engine is off.
pub open spec fn spec_route_modify(rel: Seq<char>, sync: SyncConfig) -> Seq<PushOpView> {
    if spec_config_file(rel, sync) {
        if sync.sync_config { seq![PushOpView::SettingModify(rel)] } else { Seq::empty() }
    } else if has_suffix(rel, ".md"@) {
        if sync.sync_notes { seq![PushOpView::NoteModify(rel)] } else { Seq::empty() }
    } else {
        if sync.sync_files { seq![PushOpView::FileUpload(rel)] } else { Seq::empty() }
    }
}

/// The push for a deleted local file, by the same rule.
pub open spec fn spec_route_delete(rel: Seq<char>, sync: SyncConfig) -> Seq<PushOpView> {
    if spec_config_file(rel, sync) {
        if sync.sync_config { seq![PushOpView::SettingDelete(rel)] } else { Seq::empty() }
    } else if has_suffix(rel, ".md"@) {
        if sync.sync_notes { seq![PushOpView::NoteDelete(rel)] } else { Seq::empty() }
    } else {
        if sync.sync_files { seq![PushOpView::FileDelete(rel)] } else { Seq::empty() }
    }
}

/// The pushes for a local move within the synced paths, by the engine of
/// the new path: a rename for settings and notes, a deletion and an upload
/// for files.
pub open spec fn spec_route_rename(new_rel: Seq<char>, old_rel: Seq<char>, sync: SyncConfig) -> Seq<PushOpView> {
    if spec_config_file(new_rel, sync) {
        if sync.sync_config { seq![PushOpView::SettingRename(new_rel, old_rel)] } else { Seq::empty() }
    } else if has_suffix(new_rel, ".md"@) {
        if sync.sync_notes { seq![PushOpView::NoteRename(new_rel, old_rel)] } else { Seq::empty() }
    } else {
        if sync.sync_files { seq![PushOpView::FileDelete(old_rel), PushOpView::FileUpload(new_rel)] } else { Seq::empty() }
    }
}

/// The message of the error for a path outside the vault.
pub open spec fn outside_vault_message() -> Seq<char> {
    "Failed to get relative path: prefix not found"@
}

/// The sync state and engines of a session.
pub struct SyncCoordinator {
    pub config: AppConfig,
    pub vault_path: String,
    pub ws_client: WsClient,
    pub state: SyncState,
    pub state_path: String,
    pub note_sync: NoteSync,
    pub file_sync: FileSync,
    pub setting_sync: SettingSync,
    pub folder_sync: FolderSync,
    pub ignored_files: StringHashSet,
}

/// Copies a list of strings.
fn copy_strings(v: &Vec<String>) -> (r: Vec<String>)
    ensures
        r@.map_values(|s: String| s@) == v@.map_values(|s: String| s@),
{
    let mut out: Vec<String> = Vec::new();
    let mut i: usize = 0;
    while i < v.len()
        invariant
            i <= v@.len(),
            out@.map_values(|s: String| s@) == v@.take(i as int).map_values(|s: String| s@),
        decreases v@.len() - i,
    {
        let c = v[i].clone();
        let ghost before = out@;
        out.push(c);
        proof {
            assert(v@.take(i + 1) =~= v@.take(i as int).push(v@[i as int]));
            assert(v@.take(i + 1).map_values(|s: String| s@) =~= v@.take(i as int).map_values(|s: String| s@).push(
                v@[i as int]@,
            ));
            assert(out@.map_values(|s: String| s@) =~= before.map_values(|s: String| s@).push(c@));
        }
        i += 1;
    }
    proof {
        assert(v@.take(i as int) =~= v@);
    }
    out
}

impl SyncCoordinator {
    /// The coordinator's invariant: the engines' own.
    pub open spec fn wf(&self) -> bool {
        self.note_sync.wf() && self.file_sync.wf() && self.setting_sync.wf()
    }

    /// A session for `config`, with the vault at `vault_path` (as resolved
    /// by the application) and the sync state loaded from it.
    pub fn new(config: AppConfig, vault_path: String, state: SyncState) -> (c: Self)
        ensures
            c.wf(),
            c.config == config,
            c.vault_path@ == vault_path@,
            c.state == state,
            c.state_path@ == crate::paths::join_under(vault_path@, ".fns_state.json"@),
            c.ignored_files@ == Set::<Seq<char>>::empty(),
            c.note_sync.spec_patterns() == config.sync.exclude_patterns@.map_values(|s: String| s@),
            c.setting_sync.spec_config_dirs() == config.sync.config_sync_dirs@.map_values(|s: String| s@),
            c.setting_sync.spec_sync_config() == config.sync.sync_config,
    {
        let state_path = join_path(vault_path.as_str(), ".fns_state.json");
        let ws_client = WsClient::new(&config);
        let note_sync = NoteSync::new(
            vault_path.clone(),
            state,
            config.server.vault.clone(),
            copy_strings(&config.sync.exclude_patterns),
        );
        let file_sync = FileSync::new(&config, vault_path.clone());
        let setting_sync = SettingSync::new(
            vault_path.clone(),
            copy_strings(&config.sync.config_sync_dirs),
            config.sync.sync_config,
            config.server.vault.clone(),
        );
        let folder_sync = FolderSync::new(
            vault_path.clone(),
            state,
            config.server.vault.clone(),
            copy_strings(&config.sync.config_sync_dirs),
        );
        SyncCoordinator {
            config,
            vault_path,
            ws_client,
            state,
            state_path,
            note_sync,
            file_sync,
            setting_sync,
            folder_sync,
            ignored_files: StringHashSet::new(),
        }
    }

    /// Whether `other` has the same configuration, connection and engines.
    pub open spec fn same_parts(&self, other: &Self) -> bool {
        &&& self.config == other.config
        &&& self.vault_path == other.vault_path
        &&& self.ws_client == other.ws_client
        &&& self.state_path == other.state_path
        &&& self.note_sync == other.note_sync
        &&& self.file_sync == other.file_sync
        &&& self.setting_sync == other.setting_sync
        &&& self.folder_sync == other.folder_sync
    }

    /// Ignores `path` in watcher events from now on.
    pub fn ignore_file(&mut self, path: &str)
        ensures
            final(self).ignored_files@ == old(self).ignored_files@.insert(path@),
            final(self).same_parts(old(self)),
            final(self).state == old(self).state,
    {
        self.ignored_files.insert(path.to_owned());
    }

    /// Stops ignoring `path`.
    pub fn unignore_file(&mut self, path: &str)
        ensures
            final(self).ignored_files@ == old(self).ignored_files@.remove(path@),
            final(self).same_parts(old(self)),
            final(self).state == old(self).state,
    {
        self.ignored_files.remove(path);
    }

    /// Whether `path` is ignored.
    pub fn is_ignored(&self, path: &str) -> (r: bool)
        ensures
            r == self.ignored_files@.contains(path@),
    {
        self.ignored_files.contains(path)
    }

    /// The sync state.
    pub fn state(&self) -> (r: SyncState)
        ensures
            r == self.state,
    {
        self.state
    }

    /// The vault directory.
    pub fn vault_path(&self) -> (r: &String)
        ensures
            r@ == self.vault_path@,
    {
        &self.vault_path
    }

    /// Whether a vault-relative path is in a config directory.
    pub fn is_config_file(&self, rel: &str) -> (r: bool)
        ensures
            r == spec_config_file(rel@, self.config.sync),
    {
        config_path_by(rel, &self.config.sync.config_sync_dirs, self.config.sync.sync_config)
    }

    /// Whether the coordinator leaves a vault-relative path out.
    pub fn is_excluded(&self, rel: &str) -> (r: bool)
        ensures
            r == spec_coordinator_excluded(rel@, self.config.sync),
    {
        proof {
            reveal_strlit(".~#");
            reveal_strlit("/.DS_Store");
            reveal_strlit(".tmp");
            reveal_strlit(".tmp.");
        }
        let v = str_chars(rel);
        if chars_contain(&v, &str_chars(".~#")) {
            return true;
        }
        if str_eq(rel, ".DS_Store") || chars_end_with(&v, &str_chars("/.DS_Store")) {
            return true;
        }
        if chars_start_with(&v, &str_chars(".tmp")) || chars_end_with(&v, &str_chars(".tmp")) || chars_contain(
            &v,
            &str_chars(".tmp."),
        ) {
            return true;
        }
        if !self.config.sync.sync_config && self.is_config_file(rel) {
            return true;
        }
        excluded_by_patterns(&v, &self.config.sync.exclude_patterns)
    }

    /// Whether a vault-relative path is out of the pushes: ignored or excluded.
    pub fn is_skipped(&self, rel: &str) -> (r: bool)
        ensures
            r == (self.ignored_files@.contains(rel@) || spec_coordinator_excluded(rel@, self.config.sync)),
    {
        self.is_ignored(rel) || self.is_excluded(rel)
    }

    /// The path of a watcher event relative to the vault, or the error for a
    /// path outside it.
    fn relative(&self, path: &String) -> (r: Result<String, FnsError>)
        ensures
            match r {
                Ok(s) => vault_relative(path@, self.vault_path@) == Some(s@),
                Err(e) => vault_relative(path@, self.vault_path@) is None && (e matches FnsError::Sync { message }
                    && message@ == outside_vault_message()),
            },
    {
        match strip_vault_prefix(path.as_str(), self.vault_path.as_str()) {
            Some(r) => Ok(r),
            None => Err(FnsError::Sync { message: String::from_str("Failed to get relative path: prefix not found") }),
        }
    }

    /// The pushes that a watcher event calls for (see [`spec_route_modify`],
    /// [`spec_route_delete`], [`spec_route_rename`]): nothing for an ignored
    /// or excluded path; for a move, a deletion when the file left the synced
    /// paths, an upload when it entered them, a rename within them.
    pub fn plan_watch_event(&self, event: &WatchEvent) -> (r: Result<Vec<PushOp>, FnsError>)
        ensures
            match event@ {
                WatchEventView::Created(p) | WatchEventView::Modified(p) => match vault_relative(p, self.vault_path@) {
                    None => r matches Err(FnsError::Sync { message }) && message@ == outside_vault_message(),
                    Some(rel) => r matches Ok(ops) && ops@.map_values(|o: PushOp| o@) == (if self.ignored_files@.contains(rel)
                        || spec_coordinator_excluded(rel, self.config.sync) {
                        Seq::empty()
                    } else {
                        spec_route_modify(rel, self.config.sync)
                    }),
                },
                WatchEventView::Deleted(p) => match vault_relative(p, self.vault_path@) {
                    None => r matches Err(FnsError::Sync { message }) && message@ == outside_vault_message(),
                    Some(rel) => r matches Ok(ops) && ops@.map_values(|o: PushOp| o@) == (if self.ignored_files@.contains(rel)
                        || spec_coordinator_excluded(rel, self.config.sync) {
                        Seq::empty()
                    } else {
                        spec_route_delete(rel, self.config.sync)
                    }),
                },
                WatchEventView::Moved(from, to) => match (vault_relative(from, self.vault_path@), vault_relative(to, self.vault_path@)) {
                    (Some(old_rel), Some(new_rel)) => r matches Ok(ops) && ({
                        let old_out = self.ignored_files@.contains(old_rel) || spec_coordinator_excluded(old_rel, self.config.sync);
                        let new_out = self.ignored_files@.contains(new_rel) || spec_coordinator_excluded(new_rel, self.config.sync);
                        ops@.map_values(|o: PushOp| o@) == (if old_out && new_out {
                            Seq::empty()
                        } else if new_out {
                            spec_route_delete(old_rel, self.config.sync)
                        } else if old_out {
                            spec_route_modify(new_rel, self.config.sync)
                        } else {
                            spec_route_rename(new_rel, old_rel, self.config.sync)
                        })
                    }),
                    _ => r matches Err(FnsError::Sync { message }) && message@ == outside_vault_message(),
                },
            },
    {
        match event {
            WatchEvent::Created(path) | WatchEvent::Modified(path) => {
                let rel = match self.relative(path) {
                    Ok(r) => r,
                    Err(e) => return Err(e),
                };
                if self.is_skipped(rel.as_str()) {
                    return Ok(Vec::new());
                }
                Ok(self.route_modify(rel))
            },
            WatchEvent::Deleted(path) => {
                let rel = match self.relative(path) {
                    Ok(r) => r,
                    Err(e) => return Err(e),
                };
                if self.is_skipped(rel.as_str()) {
                    return Ok(Vec::new());
                }
                Ok(self.route_delete(rel))
            },
            WatchEvent::Moved { from, to } => {
                let old_rel = match self.relative(from) {
                    Ok(r) => r,
                    Err(e) => return Err(e),
                };
                let new_rel = match self.relative(to) {
                    Ok(r) => r,
                    Err(e) => return Err(e),
                };
                let old_out = self.is_skipped(old_rel.as_str());
                let new_out = self.is_skipped(new_rel.as_str());
                if old_out && new_out {
                    return Ok(Vec::new());
                }
                if new_out {
                    return Ok(self.route_delete(old_rel));
                }
                if old_out {
                    return Ok(self.route_modify(new_rel));
                }
                Ok(self.route_rename(new_rel, old_rel))
            },
        }
    }

    /// The push for a changed local file (see [`spec_route_modify`]).
    fn route_modify(&self, rel: String) -> (r: Vec<PushOp>)
        ensures
            r@.map_values(|o: PushOp| o@) == spec_route_modify(rel@, self.config.sync),
    {
        let mut out: Vec<PushOp> = Vec::new();
        let ghost rv = rel@;
        if self.is_config_file(rel.as_str()) {
            if self.config.sync.sync_config {
                out.push(PushOp::SettingModify(rel));
            }
        } else if crate::paths::ends_with(rel.as_str(), ".md") {
            if self.config.sync.sync_notes {
                out.push(PushOp::NoteModify(rel));
            }
        } else {
            if self.config.sync.sync_files {
                out.push(PushOp::FileUpload(rel));
            }
        }
        proof {
            assert(out@.map_values(|o: PushOp| o@) =~= spec_route_modify(rv, self.config.sync));
        }
        out
    }

    /// The push for a deleted local file (see [`spec_route_delete`]).
    fn route_delete(&self, rel: String) -> (r: Vec<PushOp>)
        ensures
            r@.map_values(|o: PushOp| o@) == spec_route_delete(rel@, self.config.sync),
    {
        let mut out: Vec<PushOp> = Vec::new();
        let ghost rv = rel@;
        if self.is_config_file(rel.as_str()) {
            if self.config.sync.sync_config {
                out.push(PushOp::SettingDelete(rel));
            }
        } else if crate::paths::ends_with(rel.as_str(), ".md") {
            if self.config.sync.sync_notes {
                out.push(PushOp::NoteDelete(rel));
            }
        } else {
            if self.config.sync.sync_files {
                out.push(PushOp::FileDelete(rel));
            }
        }
        proof {
            assert(out@.map_values(|o: PushOp| o@) =~= spec_route_delete(rv, self.config.sync));
        }
        out
    }

    /// The pushes for a move within the synced paths (see [`spec_route_rename`]).
    fn route_rename(&self, new_rel: String, old_rel: String) -> (r: Vec<PushOp>)
        ensures
            r@.map_values(|o: PushOp| o@) == spec_route_rename(new_rel@, old_rel@, self.config.sync),
    {
        let mut out: Vec<PushOp> = Vec::new();
        let ghost nv = new_rel@;
        let ghost ov = old_rel@;
        if self.is_config_file(new_rel.as_str()) {
            if self.config.sync.sync_config {
                out.push(PushOp::SettingRename { new_path: new_rel, old_path: old_rel });
            }
        } else if crate::paths::ends_with(new_rel.as_str(), ".md") {
            if self.config.sync.sync_notes {
                out.push(PushOp::NoteRename { new_path: new_rel, old_path: old_rel });
            }
        } else {
            if self.config.sync.sync_files {
                out.push(PushOp::FileDelete(old_rel));
                out.push(PushOp::FileUpload(new_rel));
            }
        }
        proof {
            assert(out@.map_values(|o: PushOp| o@) =~= spec_route_rename(nv, ov, self.config.sync));
        }
        out
    }

    /// After connection attempt `retries` (counted from one) failed in
    /// continuous mode: the delay before the next attempt, in seconds, or
    /// `None` to give up once the configured number of attempts is exceeded
    /// (a limit of 0 means no limit).
    pub fn reconnect_delay(&self, retries: u32) -> (r: Option<u64>)
        ensures
            retries_exhausted(self.config.client.reconnect_max_retries, retries) ==> r is None,
            !retries_exhausted(self.config.client.reconnect_max_retries, retries) ==> (r matches Some(d) && d
                == spec_delay(self.config.client.reconnect_base_delay, retries)),
    {
        let max = self.config.client.reconnect_max_retries;
        if max != 0 && retries > max {
            return None;
        }
        let c = ClientConfig {
            reconnect_max_retries: self.config.client.reconnect_max_retries,
            reconnect_base_delay: self.config.client.reconnect_base_delay,
            heartbeat_interval: self.config.client.heartbeat_interval,
        };
        let probe = WsClient::with_config(
            ServerConfig { api: String::new(), token: String::new(), vault: String::new() },
            c,
        );
        Some(probe.calculate_delay(retries))
    }

    /// Commits the note engine's sync time to the state when it reported one.
    pub fn commit_note_time(&mut self)
        ensures
            final(self).state == (if old(self).note_sync.progress().pending_last_time > 0 {
                (SyncState { last_note_sync_time: old(self).note_sync.progress().pending_last_time, ..old(self).state })
            } else {
                old(self).state
            }),
            final(self).same_parts(old(self)),
            final(self).ignored_files@ == old(self).ignored_files@,
    {
        let pending = self.note_sync.pending_last_time();
        if pending > 0 {
            self.state.last_note_sync_time = pending;
        }
    }

    /// Commits the file engine's sync time to the state when it reported one.
    pub fn commit_file_time(&mut self)
        ensures
            final(self).state == (if old(self).file_sync.progress().pending_last_time > 0 {
                (SyncState { last_file_sync_time: old(self).file_sync.progress().pending_last_time, ..old(self).state })
            } else {
                old(self).state
            }),
            final(self).same_parts(old(self)),
            final(self).ignored_files@ == old(self).ignored_files@,
    {
        let pending = self.file_sync.pending_last_time();
        if pending > 0 {
            self.state.last_file_sync_time = pending;
        }
    }

    /// Commits the setting engine's sync time to the state when it reported one.
    pub fn commit_setting_time(&mut self)
        ensures
            final(self).state == (if old(self).setting_sync.progress().pending_last_time > 0 {
                (SyncState { last_setting_sync_time: old(self).setting_sync.progress().pending_last_time, ..old(self).state })
            } else {
                old(self).state
            }),
            final(self).same_parts(old(self)),
            final(self).ignored_files@ == old(self).ignored_files@,
    {
        let pending = self.setting_sync.pending_last_time();
        if pending > 0 {
            self.state.last_setting_sync_time = pending;
        }
    }
}

/// Whether a vault-relative path is in a config directory, for the given
/// directories and switch.
fn config_path_by(rel: &str, dirs: &Vec<String>, sync_config: bool) -> (r: bool)
    ensures
        r == spec_setting_config_path(rel@, dirs@.map_values(|s: String| s@), sync_config),
{
    let first = crate::sync::rules::first_component_of(rel);
    let fv = str_chars(first.as_str());
    let mut dot: Vec<char> = Vec::new();
    dot.push('.');
    proof {
        assert(dot@ =~= seq!['.']);
    }
    if !chars_start_with(&fv, &dot) {
        return false;
    }
    let ghost ds = dirs@.map_values(|s: String| s@);
    let mut i: usize = 0;
    while i < dirs.len()
        invariant
            i <= dirs@.len(),
            ds == dirs@.map_values(|s: String| s@),
            first@ == crate::sync::rules::first_component(rel@),
            has_prefix(first@, seq!['.']),
            forall|k: int| 0 <= k < i ==> ds[k] != first@,
        decreases dirs@.len() - i,
    {
        if str_eq(dirs[i].as_str(), first.as_str()) {
            proof {
                assert(ds[i as int] == first@);
                assert(ds.contains(first@));
            }
            return true;
        }
        i += 1;
    }
    sync_config
}

/// Two actions with the same wire name are the same action.
proof fn lemma_same_name_same_action(a: ServerAction, b: ServerAction)
    requires
        server_action_name(a) == server_action_name(b),
    ensures
        a == b,
{
    lemma_action_name_roundtrip(Action::Server(a));
    lemma_action_name_roundtrip(Action::Server(b));
    assert(action_name(Action::Server(a)) == action_name(Action::Server(b)));
}

/// In continuous mode a server message goes to the same handler as in the
/// exchange of its engine: a note, file or setting message is routed to the
/// handler of the kind that engine gives it; the acknowledgements of pushed
/// notes (named `Note` and `ModifyAck` or `DeleteAck`) and of deleted files
/// (`File` and `DeleteAck`) are routed as such; every other message is
/// ignored.
pub proof fn lemma_route_follows_engines(a: ServerAction)
    ensures
        spec_route(Action::Server(a)) == ServerRoute::NoteModify <==> spec_note_message(Action::Server(a)) == NoteMessage::Modify,
        spec_route(Action::Server(a)) == ServerRoute::NoteDelete <==> spec_note_message(Action::Server(a)) == NoteMessage::Delete,
        spec_route(Action::Server(a)) == ServerRoute::NoteRename <==> spec_note_message(Action::Server(a)) == NoteMessage::Rename,
        spec_route(Action::Server(a)) == ServerRoute::NoteMtime <==> spec_note_message(Action::Server(a)) == NoteMessage::Mtime,
        spec_route(Action::Server(a)) == ServerRoute::FileUpdate <==> spec_file_message(a) == FileMessage::Update,
        spec_route(Action::Server(a)) == ServerRoute::FileDelete <==> spec_file_message(a) == FileMessage::Delete,
        spec_route(Action::Server(a)) == ServerRoute::FileChunkDownload <==> spec_file_message(a) == FileMessage::ChunkDownload,
        spec_route(Action::Server(a)) == ServerRoute::FileUpload <==> spec_file_message(a) == FileMessage::Upload,
        spec_route(Action::Server(a)) == ServerRoute::FileUploadAck <==> spec_file_message(a) == FileMessage::UploadAck,
        spec_route(Action::Server(a)) == ServerRoute::SettingModify <==> spec_setting_message(a) == SettingMessage::Modify,
        spec_route(Action::Server(a)) == ServerRoute::SettingDelete <==> spec_setting_message(a) == SettingMessage::Delete,
        spec_route(Action::Server(a)) == ServerRoute::SettingModifyAck <==> spec_setting_message(a) == SettingMessage::ModifyAck,
        spec_route(Action::Server(a)) == ServerRoute::Acknowledged <==> (server_action_name(a) == "Note"@ + "ModifyAck"@
            || server_action_name(a) == "Note"@ + "DeleteAck"@),
        spec_route(Action::Server(a)) == ServerRoute::FileDeleteAck <==> server_action_name(a) == "File"@ + "DeleteAck"@,
{
    reveal_strlit("Note");
    reveal_strlit("File");
    reveal_strlit("ModifyAck");
    reveal_strlit("DeleteAck");
    reveal_strlit("NoteModifyAck");
    reveal_strlit("NoteDeleteAck");
    reveal_strlit("FileDeleteAck");
    assert("Note"@ + "ModifyAck"@ =~= "NoteModifyAck"@);
    assert("Note"@ + "DeleteAck"@ =~= "NoteDeleteAck"@);
    assert("File"@ + "DeleteAck"@ =~= "FileDeleteAck"@);
    if server_action_name(a) == "NoteModifyAck"@ {
        lemma_same_name_same_action(a, ServerAction::NoteModifyAck);
    }
    if server_action_name(a) == "NoteDeleteAck"@ {
        lemma_same_name_same_action(a, ServerAction::NoteDeleteAck);
    }
    if server_action_name(a) == "FileDeleteAck"@ {
        lemma_same_name_same_action(a, ServerAction::FileDeleteAck);
    }
}

/// A client action arriving from the server goes nowhere.
pub proof fn lemma_client_actions_not_routed(c: ClientAction)
    ensures
        spec_route(Action::Client(c)) == ServerRoute::Ignore,
{
}

/// The push that undoes, on the same engine, what a push of a changed file
/// did: the deletion of that path.
pub open spec fn deletion_of(op: PushOpView) -> PushOpView {
    match op {
        PushOpView::SettingModify(p) => PushOpView::SettingDelete(p),
        PushOpView::NoteModify(p) => PushOpView::NoteDelete(p),
        PushOpView::FileUpload(p) => PushOpView::FileDelete(p),
        other => other,
    }
}

/// A local deletion is pushed to the engine that a change of the same path
/// is pushed to, as that engine's deletion of the path, and is pushed
/// whenever a change would be: for an attachment (no config path, no note)
/// with file sync on, the change is one upload and the deletion one file
/// deletion of that path.
pub proof fn lemma_delete_mirrors_modify(rel: Seq<char>, sync: SyncConfig)
    ensures
        spec_route_delete(rel, sync) == spec_route_modify(rel, sync).map_values(|o: PushOpView| deletion_of(o)),
        !spec_config_file(rel, sync) && !has_suffix(rel, ".md"@) && sync.sync_files ==> spec_route_modify(rel, sync)
            == seq![PushOpView::FileUpload(rel)] && spec_route_delete(rel, sync) == seq![PushOpView::FileDelete(rel)],
{
    assert(spec_route_delete(rel, sync) =~= spec_route_modify(rel, sync).map_values(|o: PushOpView| deletion_of(o)));
}

/// Moving an attachment to another attachment path is the deletion of the
/// old path followed by the change of the new one.
pub proof fn lemma_file_move_is_delete_then_upload(new_rel: Seq<char>, old_rel: Seq<char>, sync: SyncConfig)
    requires
        !spec_config_file(new_rel, sync),
        !has_suffix(new_rel, ".md"@),
        !spec_config_file(old_rel, sync),
        !has_suffix(old_rel, ".md"@),
    ensures
        spec_route_rename(new_rel, old_rel, sync) == spec_route_delete(old_rel, sync) + spec_route_modify(new_rel, sync),
{
    assert(spec_route_rename(new_rel, old_rel, sync) =~= spec_route_delete(old_rel, sync) + spec_route_modify(new_rel, sync));
}

/// The path a push is about (the new path of a rename).
pub open spec fn push_path(op: PushOpView) -> Seq<char> {
    match op {
        PushOpView::SettingModify(p) | PushOpView::SettingDelete(p) | PushOpView::NoteModify(p)
        | PushOpView::NoteDelete(p) | PushOpView::FileUpload(p) | PushOpView::FileDelete(p) => p,
        PushOpView::SettingRename(p, _) | PushOpView::NoteRename(p, _) => p,
    }
}

/// Whether the engine that owns a path (settings for a config path, notes
/// for a `.md` file, files otherwise) is on.
pub open spec fn owner_engine_on(rel: Seq<char>, sync: SyncConfig) -> bool {
    if spec_config_file(rel, sync) {
        sync.sync_config
    } else if has_suffix(rel, ".md"@) {
        sync.sync_notes
    } else {
        sync.sync_files
    }
}

/// A changed or deleted local file is pushed exactly when the engine that
/// owns it is on, as one push about that very path.
pub proof fn lemma_local_change_pushed_when_owner_on(rel: Seq<char>, sync: SyncConfig)
    ensures
        spec_route_modify(rel, sync).len() == (if owner_engine_on(rel, sync) { 1int } else { 0int }),
        spec_route_delete(rel, sync).len() == (if owner_engine_on(rel, sync) { 1int } else { 0int }),
        owner_engine_on(rel, sync) ==> push_path(spec_route_modify(rel, sync)[0]) == rel && push_path(
            spec_route_delete(rel, sync)[0],
        ) == rel,
{
}

} // verus!
