//! Setting sync: the text files in the vault's dot-prefixed directories
//! (`.obsidian/`, `.agents/`, ...); binary files are skipped.
//!
//! Reading and writing files and the WebSocket belong to the application; the
//! functions here decide what is to be done and record what was done.

use vstd::prelude::*;
use crate::echo_cache::DELETED_MARKER;
use crate::hash::{hash_content, spec_hash_content};
use crate::paths::{chars_start_with, has_prefix};
use crate::protocol::actions::{action_name, lemma_action_name_roundtrip, server_action_name, Action, ServerAction};
use crate::sync::echo::EchoHashes;
use crate::sync::progress::Progress;
use crate::sync::rules::{first_component, first_component_of, spec_extension, extension_of};
use crate::text::{str_chars, str_eq};
use crate::json::{array_member, as_text, is_object, json_array_member, json_is_object, json_str_member, json_text, str_member};

verus! {

/// How many leading bytes of a file are looked at for a NUL byte.
pub const TEXT_PROBE_LEN: usize = 8192;

/// The extensions of binary files, which are not synced.
pub open spec fn spec_binary_extension(ext: Seq<char>) -> bool {
    ext == "png"@ || ext == "jpg"@ || ext == "jpeg"@ || ext == "gif"@ || ext == "bmp"@ || ext == "ico"@
        || ext == "svg"@ || ext == "woff"@ || ext == "woff2"@ || ext == "ttf"@ || ext == "eot"@ || ext == "otf"@
        || ext == "pdf"@ || ext == "zip"@ || ext == "tar"@ || ext == "gz"@ || ext == "rar"@ || ext == "7z"@
        || ext == "mp3"@ || ext == "mp4"@ || ext == "wav"@ || ext == "avi"@ || ext == "mov"@ || ext == "mkv"@
        || ext == "exe"@ || ext == "dll"@ || ext == "so"@ || ext == "dylib"@ || ext == "db"@ || ext == "sqlite"@
        || ext == "sqlite3"@
}

/// A character as lower-casing leaves it for comparing against ASCII names:
/// `A`–`Z` become `a`–`z`, and the Kelvin sign becomes `k` (the one other
/// character whose lower case is ASCII); any other character stays what it
/// is, and is not ASCII after lower-casing either unless it already was.
pub open spec fn fold_char(c: char) -> char {
    if 'A' <= c <= 'Z' {
        ((c as u32) + 32) as char
    } else if c == '\u{212A}' {
        'k'
    } else {
        c
    }
}

/// The text of a file is binary when its extension (lower-cased) is a
/// binary one or its first bytes hold a NUL.
pub open spec fn spec_is_text_file(path: Seq<char>, head: Seq<u8>) -> bool {
    let ext_binary = match spec_extension(path) {
        Some(e) => spec_binary_extension(e.map_values(|c: char| fold_char(c))),
        None => false,
    };
    let probe = if head.len() <= TEXT_PROBE_LEN { head } else { head.take(TEXT_PROBE_LEN as int) };
    !ext_binary && !probe.contains(0u8)
}

/// Whether a vault-relative path belongs to the setting engine: its first
/// component starts with a dot, and it is one of the config directories or
/// the engine syncs all dot-prefixed directories.
pub open spec fn spec_setting_config_path(rel: Seq<char>, config_dirs: Seq<Seq<char>>, sync_config: bool) -> bool {
    let first = first_component(rel);
    has_prefix(first, seq!['.']) && (config_dirs.contains(first) || sync_config)
}

/// Whether the setting engine leaves a vault-relative path out: the local
/// state file, and anything under `.git/` or `.trash/`.
pub open spec fn spec_setting_excluded(rel: Seq<char>) -> bool {
    rel == ".fns_state.json"@ || has_prefix(rel, ".git/"@) || has_prefix(rel, ".trash/"@)
}

/// How a message of a setting sync exchange is handled.
#[derive(Debug, Clone, Copy, PartialEq, Eq, Structural)]
pub enum SettingMessage {
    /// A modification to apply.
    Modify,
    /// A deletion to apply.
    Delete,
    /// A rename to apply.
    Rename,
    /// A modification time to apply.
    Mtime,
    /// Settings the server wants pushed.
    NeedUpload,
    /// The end message.
    End,
    /// An acknowledgement of a pushed setting.
    ModifyAck,
    /// A file message, handled by the file engine.
    File,
    /// Nothing to do.
    Ignore,
}

/// How each server action is handled during a setting sync exchange.
pub open spec fn spec_setting_message(action: ServerAction) -> SettingMessage {
    match action {
        ServerAction::SettingSyncModify => SettingMessage::Modify,
        ServerAction::SettingSyncDelete => SettingMessage::Delete,
        ServerAction::SettingSyncRename => SettingMessage::Rename,
        ServerAction::SettingSyncMtime => SettingMessage::Mtime,
        ServerAction::SettingSyncNeedUpload => SettingMessage::NeedUpload,
        ServerAction::SettingSyncEnd => SettingMessage::End,
        ServerAction::SettingModifyAck => SettingMessage::ModifyAck,
        ServerAction::FileUpload | ServerAction::FileUploadAck | ServerAction::FileDeleteAck
        | ServerAction::FileSyncUpdate | ServerAction::FileSyncMtime | ServerAction::FileSyncChunkDownload => SettingMessage::File,
        _ => SettingMessage::Ignore,
    }
}

/// Classifies a server message of a setting sync exchange by its action.
pub fn classify_setting_action(action: ServerAction) -> (r: SettingMessage)
    ensures
        r == spec_setting_message(action),
{
    match action {
        ServerAction::SettingSyncModify => SettingMessage::Modify,
        ServerAction::SettingSyncDelete => SettingMessage::Delete,
        ServerAction::SettingSyncRename => SettingMessage::Rename,
        ServerAction::SettingSyncMtime => SettingMessage::Mtime,
        ServerAction::SettingSyncNeedUpload => SettingMessage::NeedUpload,
        ServerAction::SettingSyncEnd => SettingMessage::End,
        ServerAction::SettingModifyAck => SettingMessage::ModifyAck,
        ServerAction::FileUpload | ServerAction::FileUploadAck | ServerAction::FileDeleteAck
        | ServerAction::FileSyncUpdate | ServerAction::FileSyncMtime | ServerAction::FileSyncChunkDownload => SettingMessage::File,
        _ => SettingMessage::Ignore,
    }
}

/// Whether `ext`, folded to lower case, is a binary extension.
pub fn is_binary_extension(ext: &str) -> (r: bool)
    ensures
        r == spec_binary_extension(ext@.map_values(|c: char| fold_char(c))),
{
    let v = str_chars(ext);
    let mut lower: Vec<char> = Vec::new();
    let mut i: usize = 0;
    while i < v.len()
        invariant
            i <= v@.len(),
            lower@ == v@.take(i as int).map_values(|c: char| fold_char(c)),
        decreases v@.len() - i,
    {
        let c = v[i];
        let d = if 'A' <= c && c <= 'Z' {
            let b: u8 = c as u8;
            (b + 32) as char
        } else if c == '\u{212A}' {
            'k'
        } else {
            c
        };
        lower.push(d);
        i += 1;
        proof {
            assert(lower@ =~= v@.take(i as int).map_values(|c: char| fold_char(c)));
        }
    }
    proof {
        assert(v@.take(v@.len() as int) =~= v@);
    }
    let s = crate::text::chars_to_string(&lower);
    let e = s.as_str();
    str_eq(e, "png") || str_eq(e, "jpg") || str_eq(e, "jpeg") || str_eq(e, "gif") || str_eq(e, "bmp")
        || str_eq(e, "ico") || str_eq(e, "svg") || str_eq(e, "woff") || str_eq(e, "woff2") || str_eq(e, "ttf")
        || str_eq(e, "eot") || str_eq(e, "otf") || str_eq(e, "pdf") || str_eq(e, "zip") || str_eq(e, "tar")
        || str_eq(e, "gz") || str_eq(e, "rar") || str_eq(e, "7z") || str_eq(e, "mp3") || str_eq(e, "mp4")
        || str_eq(e, "wav") || str_eq(e, "avi") || str_eq(e, "mov") || str_eq(e, "mkv") || str_eq(e, "exe")
        || str_eq(e, "dll") || str_eq(e, "so") || str_eq(e, "dylib") || str_eq(e, "db") || str_eq(e, "sqlite")
        || str_eq(e, "sqlite3")
}

/// Setting sync engine.
pub struct SettingSync {
    vault_path: String,
    config_dirs: Vec<String>,
    echo_hashes: EchoHashes,
    sync_config: bool,
    vault: String,
    progress: Progress,
}

impl SettingSync {
    /// The local vault directory.
    pub closed spec fn spec_vault_path(&self) -> Seq<char> {
        self.vault_path@
    }

    /// The config directories.
    pub closed spec fn spec_config_dirs(&self) -> Seq<Seq<char>> {
        self.config_dirs@.map_values(|s: String| s@)
    }

    /// Whether every dot-prefixed directory is synced.
    pub closed spec fn spec_sync_config(&self) -> bool {
        self.sync_config
    }

    /// The vault name used in protocol messages.
    pub closed spec fn spec_vault(&self) -> Seq<char> {
        self.vault@
    }

    /// Per path, the hash of the last operation that went either way (or the
    /// deletion marker).
    pub closed spec fn echo(&self) -> Map<Seq<char>, Seq<char>> {
        self.echo_hashes@
    }

    /// The counters of the current exchange.
    pub closed spec fn progress(&self) -> Progress {
        self.progress
    }

    /// Whether `other` is set up the same: vault, names and settings.
    pub open spec fn same_setup(&self, other: &Self) -> bool {
        self.spec_vault_path() == other.spec_vault_path() && self.spec_config_dirs() == other.spec_config_dirs() && self.spec_sync_config() == other.spec_sync_config() && self.spec_vault() == other.spec_vault()
    }

    /// The engine's invariant.
    pub open spec fn wf(&self) -> bool {
        self.progress().wf()
    }

    /// The hash recorded for `path` (or the deletion marker), if any.
    pub fn echo_hash(&self, path: &str) -> (r: Option<&String>)
        ensures
            match r {
                Some(h) => self.echo().contains_key(path@) && self.echo()[path@] == h@,
                None => !self.echo().contains_key(path@),
            },
    {
        self.echo_hashes.get(path)
    }

    /// Whether the echo of `path` is `hash`.
    pub open spec fn echo_is(&self, path: Seq<char>, hash: Seq<char>) -> bool {
        self.echo().contains_key(path) && self.echo()[path] == hash
    }

    /// A setting engine for a vault.
    pub fn new(vault_path: String, config_dirs: Vec<String>, sync_config: bool, vault: String) -> (s: Self)
        ensures
            s.wf(),
            s.spec_vault_path() == vault_path@,
            s.spec_config_dirs() == config_dirs@.map_values(|d: String| d@),
            s.spec_sync_config() == sync_config,
            s.spec_vault() == vault@,
            s.echo() == Map::<Seq<char>, Seq<char>>::empty(),
            s.progress() == Progress::spec_fresh(),
    {
        SettingSync {
            vault_path,
            config_dirs,
            echo_hashes: EchoHashes::new(),
            sync_config,
            vault,
            progress: Progress::fresh(),
        }
    }

    /// The local vault directory.
    pub fn vault_path(&self) -> (r: &String)
        ensures
            r@ == self.spec_vault_path(),
    {
        &self.vault_path
    }

    /// The vault name used in protocol messages.
    pub fn vault(&self) -> (r: &String)
        ensures
            r@ == self.spec_vault(),
    {
        &self.vault
    }

    /// Whether the current exchange is complete.
    pub fn is_sync_complete(&self) -> (r: bool)
        ensures
            r == self.progress().sync_complete,
    {
        self.progress.sync_complete
    }

    /// The sync time reported by the server's end message.
    pub fn pending_last_time(&self) -> (r: i64)
        ensures
            r == self.progress().pending_last_time,
    {
        self.progress.pending_last_time
    }

    /// Settings handled in the current exchange (modifications and deletions).
    pub fn synced_count(&self) -> (r: usize)
        requires
            self.wf(),
        ensures
            r == self.progress().received_modify + self.progress().received_delete,
    {
        self.progress.received_modify + self.progress.received_delete
    }

    /// Server messages handled in the current exchange, uploads included.
    pub fn received_total(&self) -> (r: usize)
        requires
            self.wf(),
        ensures
            r == self.progress().total_received(),
    {
        self.progress.received_modify + self.progress.received_delete + self.progress.received_upload
    }

    /// Starts a new exchange: all counters back to zero.
    pub fn reset_counters(&mut self)
        ensures
            final(self).same_setup(old(self)),
            final(self).wf(),
            final(self).progress() == Progress::spec_fresh(),
            final(self).echo() == old(self).echo(),
    {
        self.progress = Progress::fresh();
    }

    /// Marks the exchange complete if every announced change was handled.
    pub fn check_all_received(&mut self)
        requires
            old(self).wf(),
        ensures
            final(self).same_setup(old(self)),
            final(self).wf(),
            final(self).progress() == old(self).progress().checked(),
            final(self).echo() == old(self).echo(),
    {
        self.progress.check_all_received();
    }

    /// Decides on a modification from the server: to be applied when a path
    /// is named, after forgetting a deletion marker for it.
    pub fn on_setting_modify(&mut self, path: &str) -> (r: bool)
        requires
            old(self).wf(),
        ensures
            final(self).same_setup(old(self)),
            final(self).wf(),
            final(self).progress() == old(self).progress(),
            r == (path@.len() > 0),
            r && old(self).echo_is(path@, DELETED_MARKER@) ==> final(self).echo() == old(self).echo().remove(path@),
            !(r && old(self).echo_is(path@, DELETED_MARKER@)) ==> final(self).echo() == old(self).echo(),
    {
        if path.is_empty() {
            return false;
        }
        if self.echo_hashes.is(path, DELETED_MARKER) {
            self.echo_hashes.forget(path);
        }
        true
    }

    /// Records that `content` was written to `path` at the server's request,
    /// and counts the modification.
    pub fn setting_written(&mut self, path: &str, content: &str)
        requires
            old(self).wf(),
            old(self).progress().total_received() < usize::MAX,
        ensures
            final(self).same_setup(old(self)),
            final(self).wf(),
            final(self).echo() == old(self).echo().insert(path@, spec_hash_content(content@)),
            final(self).progress() == (Progress {
                received_modify: (old(self).progress().received_modify + 1) as usize,
                ..old(self).progress()
            }).checked(),
    {
        let h = hash_content(content);
        self.echo_hashes.set(path, h.as_str());
        self.progress.count_modify();
    }

    /// Decides on a deletion from the server: skipped when no path is named;
    /// suppressed (and the marker forgotten, uncounted) when it is the echo of
    /// the client's own deletion; otherwise to be applied.
    pub fn on_setting_delete(&mut self, path: &str) -> (r: crate::sync::note::Apply)
        requires
            old(self).wf(),
        ensures
            final(self).same_setup(old(self)),
            final(self).wf(),
            final(self).progress() == old(self).progress(),
            path@.len() == 0 ==> r == crate::sync::note::Apply::Skip && final(self).echo() == old(self).echo(),
            path@.len() > 0 && old(self).echo_is(path@, DELETED_MARKER@) ==> r == crate::sync::note::Apply::EchoSuppressed
                && final(self).echo() == old(self).echo().remove(path@),
            path@.len() > 0 && !old(self).echo_is(path@, DELETED_MARKER@) ==> r == crate::sync::note::Apply::Proceed
                && final(self).echo() == old(self).echo(),
    {
        if path.is_empty() {
            return crate::sync::note::Apply::Skip;
        }
        if self.echo_hashes.is(path, DELETED_MARKER) {
            self.echo_hashes.forget(path);
            return crate::sync::note::Apply::EchoSuppressed;
        }
        crate::sync::note::Apply::Proceed
    }

    /// Records that `path` was deleted (or found absent) at the server's
    /// request, and counts the deletion.
    pub fn setting_deleted(&mut self, path: &str)
        requires
            old(self).wf(),
            old(self).progress().total_received() < usize::MAX,
        ensures
            final(self).same_setup(old(self)),
            final(self).wf(),
            final(self).echo() == old(self).echo().insert(path@, DELETED_MARKER@),
            final(self).progress() == (Progress {
                received_delete: (old(self).progress().received_delete + 1) as usize,
                ..old(self).progress()
            }).checked(),
    {
        self.echo_hashes.set(path, DELETED_MARKER);
        self.progress.count_delete();
    }

    /// Decides on a rename from the server: nothing unless both paths are
    /// named; otherwise the old path is marked deleted and the rename is to
    /// be applied.
    pub fn on_setting_rename(&mut self, old_path: &str, new_path: &str) -> (r: bool)
        requires
            old(self).wf(),
        ensures
            final(self).same_setup(old(self)),
            final(self).wf(),
            final(self).progress() == old(self).progress(),
            r == (old_path@.len() > 0 && new_path@.len() > 0),
            r ==> final(self).echo() == old(self).echo().insert(old_path@, DELETED_MARKER@),
            !r ==> final(self).echo() == old(self).echo(),
    {
        if old_path.is_empty() || new_path.is_empty() {
            return false;
        }
        self.echo_hashes.set(old_path, DELETED_MARKER);
        true
    }

    /// Records the content found at `path` after a rename.
    pub fn setting_renamed(&mut self, path: &str, content: &str)
        requires
            old(self).wf(),
        ensures
            final(self).same_setup(old(self)),
            final(self).wf(),
            final(self).progress() == old(self).progress(),
            final(self).echo() == old(self).echo().insert(path@, spec_hash_content(content@)),
    {
        let h = hash_content(content);
        self.echo_hashes.set(path, h.as_str());
    }

    /// The hash to push for a local setting with text `content`, unless the
    /// push is an echo: always when forced, otherwise unless the echo of the
    /// path is that hash.
    pub fn plan_push_modify(&self, path: &str, content: &str, force: bool) -> (r: Option<String>)
        ensures
            match r {
                Some(h) => h@ == spec_hash_content(content@) && (force || !self.echo_is(path@, h@)),
                None => !force && self.echo_is(path@, spec_hash_content(content@)),
            },
    {
        let h = hash_content(content);
        if !force && self.echo_hashes.is(path, h.as_str()) {
            None
        } else {
            Some(h)
        }
    }

    /// Records that the content with hash `content_hash` was pushed for `path`.
    pub fn modify_pushed(&mut self, path: &str, content_hash: &str)
        requires
            old(self).wf(),
        ensures
            final(self).same_setup(old(self)),
            final(self).wf(),
            final(self).progress() == old(self).progress(),
            final(self).echo() == old(self).echo().insert(path@, content_hash@),
    {
        self.echo_hashes.set(path, content_hash);
    }

    /// Forgets the echo of `path` before its deletion is pushed.
    pub fn begin_push_delete(&mut self, path: &str)
        requires
            old(self).wf(),
        ensures
            final(self).same_setup(old(self)),
            final(self).wf(),
            final(self).progress() == old(self).progress(),
            final(self).echo() == old(self).echo().remove(path@),
    {
        self.echo_hashes.forget(path);
    }

    /// Records that the deletion of `path` was pushed.
    pub fn delete_pushed(&mut self, path: &str)
        requires
            old(self).wf(),
        ensures
            final(self).same_setup(old(self)),
            final(self).wf(),
            final(self).progress() == old(self).progress(),
            final(self).echo() == old(self).echo().insert(path@, DELETED_MARKER@),
    {
        self.echo_hashes.set(path, DELETED_MARKER);
    }

    /// Counts a setting pushed at the server's request (the completeness
    /// check follows once the whole request is handled).
    pub fn count_requested_upload(&mut self)
        requires
            old(self).wf(),
            old(self).progress().total_received() < usize::MAX,
        ensures
            final(self).same_setup(old(self)),
            final(self).wf(),
            final(self).echo() == old(self).echo(),
            final(self).progress() == (Progress {
                received_upload: (old(self).progress().received_upload + 1) as usize,
                ..old(self).progress()
            }),
    {
        self.progress.add_upload();
    }

    /// Records the server's end message.
    pub fn handle_setting_end(&mut self, last_time: i64, need_modify: i64, need_delete: i64, need_upload: i64)
        requires
            old(self).wf(),
            (need_modify as usize) + (need_delete as usize) + (need_upload as usize) <= usize::MAX,
        ensures
            final(self).same_setup(old(self)),
            final(self).wf(),
            final(self).progress() == old(self).progress().spec_after_end(last_time, need_modify, need_delete, need_upload),
            final(self).echo() == old(self).echo(),
    {
        self.progress.record_end(last_time, need_modify, need_delete, need_upload);
    }

    /// Whether a file is text: its extension is not a binary one and its
    /// first bytes (`head`, as read from the start of the file; empty when
    /// the file cannot be read) hold no NUL among the first 8192.
    pub fn is_text_file(path: &str, head: &[u8]) -> (r: bool)
        ensures
            r == spec_is_text_file(path@, head@),
    {
        let binary = match extension_of(path) {
            Some(ext) => is_binary_extension(ext.as_str()),
            None => false,
        };
        if binary {
            return false;
        }
        let n: usize = if head.len() <= TEXT_PROBE_LEN { head.len() } else { TEXT_PROBE_LEN };
        let mut i: usize = 0;
        while i < n
            invariant
                i <= n <= head@.len(),
                n == (if head@.len() <= TEXT_PROBE_LEN { head@.len() } else { TEXT_PROBE_LEN as nat }),
                forall|k: int| 0 <= k < i ==> head@[k] != 0u8,
            decreases n - i,
        {
            if head[i] == 0u8 {
                proof {
                    let probe = if head@.len() <= TEXT_PROBE_LEN { head@ } else { head@.take(TEXT_PROBE_LEN as int) };
                    assert(probe[i as int] == 0u8);
                }
                return false;
            }
            i += 1;
        }
        proof {
            let probe = if head@.len() <= TEXT_PROBE_LEN { head@ } else { head@.take(TEXT_PROBE_LEN as int) };
            assert forall|k: int| 0 <= k < probe.len() implies probe[k] != 0u8 by {
                assert(probe[k] == head@[k]);
            }
        }
        true
    }

    /// Whether a vault-relative path belongs to the setting engine.
    pub fn is_config_path(&self, rel: &str) -> (r: bool)
        ensures
            r == spec_setting_config_path(rel@, self.spec_config_dirs(), self.spec_sync_config()),
    {
        let first = first_component_of(rel);
        let fv = str_chars(first.as_str());
        let mut dot: Vec<char> = Vec::new();
        dot.push('.');
        proof {
            assert(dot@ =~= seq!['.']);
        }
        if !chars_start_with(&fv, &dot) {
            return false;
        }
        let ghost dirs = self.spec_config_dirs();
        let mut i: usize = 0;
        while i < self.config_dirs.len()
            invariant
                i <= self.config_dirs@.len(),
                dirs == self.config_dirs@.map_values(|s: String| s@),
                first@ == first_component(rel@),
                has_prefix(first@, seq!['.']),
                forall|k: int| 0 <= k < i ==> dirs[k] != first@,
            decreases self.config_dirs@.len() - i,
        {
            if str_eq(self.config_dirs[i].as_str(), first.as_str()) {
                proof {
                    assert(dirs[i as int] == first@);
                    assert(dirs.contains(first@));
                }
                return true;
            }
            i += 1;
        }
        self.sync_config
    }

    /// Whether the setting engine leaves a vault-relative path out.
    pub fn is_excluded(&self, rel: &str) -> (r: bool)
        ensures
            r == spec_setting_excluded(rel@),
    {
        let v = str_chars(rel);
        str_eq(rel, ".fns_state.json") || chars_start_with(&v, &str_chars(".git/")) || chars_start_with(
            &v,
            &str_chars(".trash/"),
        )
    }
}

/// Echo suppression for settings.  Once a setting was written with
/// `content` at the server's request (`setting_written`), the same content
/// is not pushed back unless forced (`plan_push_modify` gives `None`); once
/// a deletion is recorded (`setting_deleted`, `delete_pushed`), the
/// server's deletion of `path` is suppressed (`on_setting_delete`), and
/// afterwards `path` has no echo.
pub proof fn lemma_setting_echo_suppression(
    before: SettingSync,
    written: SettingSync,
    deleted: SettingSync,
    consumed: SettingSync,
    path: Seq<char>,
    content: Seq<char>,
)
    requires
        written.echo() == before.echo().insert(path, spec_hash_content(content)),
        deleted.echo() == before.echo().insert(path, DELETED_MARKER@),
        consumed.echo() == deleted.echo().remove(path),
    ensures
        written.echo_is(path, spec_hash_content(content)),
        deleted.echo_is(path, DELETED_MARKER@),
        forall|h: Seq<char>| !consumed.echo_is(path, h),
{
}

/// The path one entry of a need-upload list names: the `path` member of an
/// object, or the text of a JSON string; empty otherwise.
pub open spec fn spec_item_path(item: serde_json::Value) -> Seq<char> {
    if json_is_object(item) {
        match json_str_member(item, "path"@) {
            Some(p) => p,
            None => Seq::empty(),
        }
    } else {
        match json_text(item) {
            Some(t) => t,
            None => Seq::empty(),
        }
    }
}

/// Whether a path is not empty.
pub open spec fn nonempty_path() -> spec_fn(Seq<char>) -> bool {
    |p: Seq<char>| p.len() > 0
}

/// The path of each entry (see [`spec_item_path`]).
pub open spec fn path_of_item() -> spec_fn(serde_json::Value) -> Seq<char> {
    |i: serde_json::Value| spec_item_path(i)
}

/// The paths of the entries in a list, in order, empty ones left out.
pub open spec fn item_paths(items: Seq<serde_json::Value>) -> Seq<Seq<char>> {
    items.map_values(path_of_item()).filter(nonempty_path())
}

/// The paths that a need-upload payload asks for: the non-empty paths of its
/// `needUpload` array, in order (none without such an array).
pub open spec fn spec_need_upload_paths(data: serde_json::Value) -> Seq<Seq<char>> {
    match json_array_member(data, "needUpload"@) {
        Some(items) => item_paths(items),
        None => Seq::empty(),
    }
}

/// The texts of a sequence of strings.
pub open spec fn string_views(v: Seq<String>) -> Seq<Seq<char>> {
    v.map_values(|s: String| s@)
}

/// The path one entry of a need-upload list names (see [`spec_item_path`]).
fn item_path(item: &serde_json::Value) -> (r: String)
    ensures
        r@ == spec_item_path(*item),
{
    proof {
        reveal_strlit("path");
    }
    if is_object(item) {
        match str_member(item, "path") {
            Some(p) => p,
            None => String::new(),
        }
    } else {
        match as_text(item) {
            Some(t) => t,
            None => String::new(),
        }
    }
}

/// The paths that the server's need-upload message asks for, in order,
/// empty ones left out (see [`spec_need_upload_paths`]).
pub fn need_upload_paths(data: &serde_json::Value) -> (r: Vec<String>)
    ensures
        string_views(r@) == spec_need_upload_paths(*data),
{
    proof {
        reveal_strlit("needUpload");
    }
    let items = match array_member(data, "needUpload") {
        Some(a) => a,
        None => {
            let none: Vec<String> = Vec::new();
            assert(string_views(none@) =~= Seq::<Seq<char>>::empty());
            return none;
        },
    };
    let ghost f = path_of_item();
    let mut out: Vec<String> = Vec::new();
    let mut k: usize = 0;
    while k < items.len()
        invariant
            k <= items@.len(),
            f == path_of_item(),
            json_array_member(*data, "needUpload"@) == Some(items@),
            string_views(out@) == items@.take(k as int).map_values(f).filter(nonempty_path()),
        decreases items@.len() - k,
    {
        let p = item_path(&items[k]);
        proof {
            let m = items@.take(k as int).map_values(f);
            assert(f(items@[k as int]) == spec_item_path(items@[k as int]));
            assert forall|j: int| 0 <= j < k + 1 implies #[trigger] items@.take(k + 1).map_values(f)[j] == m.push(
                spec_item_path(items@[k as int]),
            )[j] by {
                if j < k {
                    assert(items@.take(k + 1)[j] == items@.take(k as int)[j]);
                }
            }
            assert(items@.take(k + 1).map_values(f) =~= m.push(spec_item_path(items@[k as int])));
            m.lemma_filter_push(spec_item_path(items@[k as int]), nonempty_path());
        }
        let ghost before = out@;
        if !p.as_str().is_empty() {
            out.push(p);
            proof {
                assert(string_views(out@) =~= string_views(before).push(p@));
            }
        }
        k += 1;
    }
    proof {
        assert(items@.take(k as int) =~= items@);
    }
    out
}

/// How each kind of message is named on the wire after the object `Setting`:
/// the protocol's verb for it (empty for `Ignore`).
pub open spec fn setting_message_name(k: SettingMessage) -> Seq<char> {
    match k {
        SettingMessage::Modify => "SyncModify"@,
        SettingMessage::Delete => "SyncDelete"@,
        SettingMessage::Rename => "SyncRename"@,
        SettingMessage::Mtime => "SyncMtime"@,
        SettingMessage::NeedUpload => "SyncNeedUpload"@,
        SettingMessage::End => "SyncEnd"@,
        SettingMessage::ModifyAck => "ModifyAck"@,
        _ => Seq::empty(),
    }
}

/// During a setting sync exchange (apart from the file messages it hands on), an action is handled as kind `k` exactly when its wire name
/// is `Setting` followed by the name of that kind, so every such action
/// reaches its own handler and none is dropped or sent to another.
pub proof fn lemma_setting_message_by_name(a: ServerAction, k: SettingMessage)
    requires
        k != SettingMessage::Ignore && k != SettingMessage::File,
    ensures
        spec_setting_message(a) == k <==> server_action_name(a) == "Setting"@ + setting_message_name(k),
{
    let b = match k {
        SettingMessage::Modify => ServerAction::SettingSyncModify,
        SettingMessage::Delete => ServerAction::SettingSyncDelete,
        SettingMessage::Rename => ServerAction::SettingSyncRename,
        SettingMessage::Mtime => ServerAction::SettingSyncMtime,
        SettingMessage::NeedUpload => ServerAction::SettingSyncNeedUpload,
        SettingMessage::End => ServerAction::SettingSyncEnd,
        SettingMessage::ModifyAck => ServerAction::SettingModifyAck,
        _ => ServerAction::SettingSyncModify,
    };
    match k {
        SettingMessage::Modify => {
            reveal_strlit("Setting");
            reveal_strlit("SyncModify");
            reveal_strlit("SettingSyncModify");
            assert("Setting"@ + "SyncModify"@ =~= "SettingSyncModify"@);
        },
        SettingMessage::Delete => {
            reveal_strlit("Setting");
            reveal_strlit("SyncDelete");
            reveal_strlit("SettingSyncDelete");
            assert("Setting"@ + "SyncDelete"@ =~= "SettingSyncDelete"@);
        },
        SettingMessage::Rename => {
            reveal_strlit("Setting");
            reveal_strlit("SyncRename");
            reveal_strlit("SettingSyncRename");
            assert("Setting"@ + "SyncRename"@ =~= "SettingSyncRename"@);
        },
        SettingMessage::Mtime => {
            reveal_strlit("Setting");
            reveal_strlit("SyncMtime");
            reveal_strlit("SettingSyncMtime");
            assert("Setting"@ + "SyncMtime"@ =~= "SettingSyncMtime"@);
        },
        SettingMessage::NeedUpload => {
            reveal_strlit("Setting");
            reveal_strlit("SyncNeedUpload");
            reveal_strlit("SettingSyncNeedUpload");
            assert("Setting"@ + "SyncNeedUpload"@ =~= "SettingSyncNeedUpload"@);
        },
        SettingMessage::End => {
            reveal_strlit("Setting");
            reveal_strlit("SyncEnd");
            reveal_strlit("SettingSyncEnd");
            assert("Setting"@ + "SyncEnd"@ =~= "SettingSyncEnd"@);
        },
        SettingMessage::ModifyAck => {
            reveal_strlit("Setting");
            reveal_strlit("ModifyAck");
            reveal_strlit("SettingModifyAck");
            assert("Setting"@ + "ModifyAck"@ =~= "SettingModifyAck"@);
        },
        _ => {},
    }
    assert(spec_setting_message(b) == k);
    assert(server_action_name(b) == "Setting"@ + setting_message_name(k));
    lemma_action_name_roundtrip(Action::Server(a));
    lemma_action_name_roundtrip(Action::Server(b));
    if server_action_name(a) == server_action_name(b) {
        assert(action_name(Action::Server(a)) == action_name(Action::Server(b)));
    }
}

} // verus!
