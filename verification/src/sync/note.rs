//! Note sync: the `.md` files of the vault outside the config directories.
//!
//! The engine keeps, per path, the content hash of the last operation that
//! went either way (or the deletion marker), so that the server's echo of the
//! client's own change is not applied again; and it counts the changes of a
//! sync exchange until the server's end message is matched.
//!
//! Reading and writing files and the WebSocket belong to the application; the
//! functions here decide what is to be done and record what was done.

use vstd::prelude::*;
use crate::echo_cache::DELETED_MARKER;
use crate::paths::{chars_start_with, has_infix, has_prefix};
use crate::protocol::actions::{action_name, lemma_action_name_roundtrip, server_action_name, Action, ServerAction};
use crate::protocol::messages::NoteSyncCheck;
use crate::state::SyncState;
use crate::sync::echo::EchoHashes;
use crate::sync::progress::Progress;
use crate::sync::rules::{excluded_by_patterns, matches_some_pattern, spec_extension, extension_of};
use crate::text::{str_chars, str_eq};

verus! {

/// What to do with a change announced by the server.
#[derive(Debug, Clone, Copy, PartialEq, Eq, Structural)]
pub enum Apply {
    /// Nothing: the message names no path.
    Skip,
    /// Nothing: the change is the echo of the client's own operation.
    EchoSuppressed,
    /// Apply the change to the vault.
    Proceed,
}

/// How a message of a note sync exchange is handled.
#[derive(Debug, Clone, Copy, PartialEq, Eq, Structural)]
pub enum NoteMessage {
    /// A modification to apply, then count.
    Modify,
    /// A deletion to apply, then count.
    Delete,
    /// A rename to apply.
    Rename,
    /// A modification time to apply.
    Mtime,
    /// A note the server wants pushed, then counted as an upload.
    NeedPush,
    /// The end message.
    End,
    /// Nothing to do.
    Ignore,
}

/// How each action is handled during a note sync exchange.
pub open spec fn spec_note_message(action: Action) -> NoteMessage {
    match action {
        Action::Server(ServerAction::NoteSyncModify) => NoteMessage::Modify,
        Action::Server(ServerAction::NoteSyncDelete) => NoteMessage::Delete,
        Action::Server(ServerAction::NoteSyncRename) => NoteMessage::Rename,
        Action::Server(ServerAction::NoteSyncMtime) => NoteMessage::Mtime,
        Action::Server(ServerAction::NoteSyncNeedPush) => NoteMessage::NeedPush,
        Action::Server(ServerAction::NoteSyncEnd) => NoteMessage::End,
        _ => NoteMessage::Ignore,
    }
}

/// Classifies a message of a note sync exchange by its action.
pub fn classify_note_action(action: Action) -> (r: NoteMessage)
    ensures
        r == spec_note_message(action),
{
    match action {
        Action::Server(ServerAction::NoteSyncModify) => NoteMessage::Modify,
        Action::Server(ServerAction::NoteSyncDelete) => NoteMessage::Delete,
        Action::Server(ServerAction::NoteSyncRename) => NoteMessage::Rename,
        Action::Server(ServerAction::NoteSyncMtime) => NoteMessage::Mtime,
        Action::Server(ServerAction::NoteSyncNeedPush) => NoteMessage::NeedPush,
        Action::Server(ServerAction::NoteSyncEnd) => NoteMessage::End,
        _ => NoteMessage::Ignore,
    }
}

/// Whether a vault-relative path is in a config directory (handled by the
/// setting engine).
pub open spec fn spec_note_config_path(rel: Seq<char>) -> bool {
    has_prefix(rel, ".obsidian/"@) || has_prefix(rel, ".agents/"@)
}

/// Whether the note engine leaves a vault-relative path out: an editor's
/// backup (`.~#`) or a match of an exclude pattern.
pub open spec fn spec_note_excluded(rel: Seq<char>, patterns: Seq<Seq<char>>) -> bool {
    has_infix(rel, ".~#"@) || matches_some_pattern(rel, patterns)
}

/// Whether a file found in the vault is a note to sync: its extension is
/// `md` and it is neither in a config directory nor excluded.
pub open spec fn spec_note_candidate(rel: Seq<char>, patterns: Seq<Seq<char>>) -> bool {
    spec_extension(rel) == Some("md"@) && !spec_note_config_path(rel) && !spec_note_excluded(rel, patterns)
}

/// Keeps the notes changed after `since`.
pub open spec fn changed_after(since: i64) -> spec_fn(NoteSyncCheck) -> bool {
    |n: NoteSyncCheck| n.mtime > since
}

/// Note sync engine.
pub struct NoteSync {
    vault_path: String,
    state: SyncState,
    vault: String,
    exclude_patterns: Vec<String>,
    echo_hashes: EchoHashes,
    progress: Progress,
}

impl NoteSync {
    /// The local vault directory.
    pub closed spec fn spec_vault_path(&self) -> Seq<char> {
        self.vault_path@
    }

    /// The sync state (times of the last syncs).
    pub closed spec fn spec_state(&self) -> SyncState {
        self.state
    }

    /// The vault name used in protocol messages.
    pub closed spec fn spec_vault(&self) -> Seq<char> {
        self.vault@
    }

    /// The exclude patterns.
    pub closed spec fn spec_patterns(&self) -> Seq<Seq<char>> {
        self.exclude_patterns@.map_values(|s: String| s@)
    }

    /// Per path, the hash of the last operation that went either way (or the
    /// deletion marker).
    pub closed spec fn echo(&self) -> Map<Seq<char>, Seq<char>> {
        self.echo_hashes@
    }

    /// The counters of the current exchange.
    pub closed spec fn progress(&self) -> Progress {
        self.progress
    }

    /// Whether `other` is set up the same: vault, names and settings.
    pub open spec fn same_setup(&self, other: &Self) -> bool {
        self.spec_vault_path() == other.spec_vault_path() && self.spec_state() == other.spec_state() && self.spec_vault() == other.spec_vault() && self.spec_patterns() == other.spec_patterns()
    }

    /// The engine's invariant.
    pub open spec fn wf(&self) -> bool {
        self.progress().wf()
    }

    /// The hash recorded for `path` (or the deletion marker), if any.
    pub fn echo_hash(&self, path: &str) -> (r: Option<&String>)
        ensures
            match r {
                Some(h) => self.echo().contains_key(path@) && self.echo()[path@] == h@,
                None => !self.echo().contains_key(path@),
            },
    {
        self.echo_hashes.get(path)
    }

    /// Whether the echo of `path` is `hash`.
    pub open spec fn echo_is(&self, path: Seq<char>, hash: Seq<char>) -> bool {
        self.echo().contains_key(path) && self.echo()[path] == hash
    }

    /// A note engine for a vault.
    pub fn new(vault_path: String, state: SyncState, vault: String, exclude_patterns: Vec<String>) -> (n: Self)
        ensures
            n.wf(),
            n.spec_vault_path() == vault_path@,
            n.spec_state() == state,
            n.spec_vault() == vault@,
            n.spec_patterns() == exclude_patterns@.map_values(|s: String| s@),
            n.echo() == Map::<Seq<char>, Seq<char>>::empty(),
            n.progress() == Progress::spec_fresh(),
    {
        let n = NoteSync {
            vault_path,
            state,
            vault,
            exclude_patterns,
            echo_hashes: EchoHashes::new(),
            progress: Progress::fresh(),
        };
        n
    }

    /// The local vault directory.
    pub fn vault_path(&self) -> (r: &String)
        ensures
            r@ == self.spec_vault_path(),
    {
        &self.vault_path
    }

    /// The sync state (times of the last syncs).
    pub fn state(&self) -> (r: SyncState)
        ensures
            r == self.spec_state(),
    {
        self.state
    }

    /// The vault name used in protocol messages.
    pub fn vault(&self) -> (r: &String)
        ensures
            r@ == self.spec_vault(),
    {
        &self.vault
    }

    /// Whether the current exchange is complete.
    pub fn is_sync_complete(&self) -> (r: bool)
        ensures
            r == self.progress().sync_complete,
    {
        self.progress.sync_complete
    }

    /// Notes handled in the current exchange (modifications, deletions and uploads).
    pub fn synced_count(&self) -> (r: usize)
        requires
            self.wf(),
        ensures
            r == self.progress().total_received(),
    {
        self.progress.received_modify + self.progress.received_delete + self.progress.received_upload
    }

    /// The sync time reported by the server's end message.
    pub fn pending_last_time(&self) -> (r: i64)
        ensures
            r == self.progress().pending_last_time,
    {
        self.progress.pending_last_time
    }

    /// Whether the current exchange is over.
    pub fn is_done(&self) -> (r: bool)
        ensures
            r == (self.progress().got_end && self.progress().sync_complete),
    {
        self.progress.is_done()
    }

    /// Starts a new exchange: all counters back to zero.
    pub fn reset_counters(&mut self)
        ensures
            final(self).same_setup(old(self)),
            final(self).wf(),
            final(self).progress() == Progress::spec_fresh(),
            final(self).echo() == old(self).echo(),
            final(self).spec_patterns() == old(self).spec_patterns(),
            final(self).spec_vault() == old(self).spec_vault(),
    {
        self.progress = Progress::fresh();
    }

    /// Marks the exchange complete if every announced change was handled.
    pub fn check_all_received(&mut self)
        requires
            old(self).wf(),
        ensures
            final(self).same_setup(old(self)),
            final(self).wf(),
            final(self).progress() == old(self).progress().checked(),
            final(self).echo() == old(self).echo(),
    {
        self.progress.check_all_received();
    }

    /// Counts a handled modification.
    pub fn count_modify(&mut self)
        requires
            old(self).wf(),
            old(self).progress().total_received() < usize::MAX,
        ensures
            final(self).same_setup(old(self)),
            final(self).wf(),
            final(self).progress() == (Progress {
                received_modify: (old(self).progress().received_modify + 1) as usize,
                ..old(self).progress()
            }).checked(),
            final(self).echo() == old(self).echo(),
    {
        self.progress.count_modify();
    }

    /// Counts a handled deletion.
    pub fn count_delete(&mut self)
        requires
            old(self).wf(),
            old(self).progress().total_received() < usize::MAX,
        ensures
            final(self).same_setup(old(self)),
            final(self).wf(),
            final(self).progress() == (Progress {
                received_delete: (old(self).progress().received_delete + 1) as usize,
                ..old(self).progress()
            }).checked(),
            final(self).echo() == old(self).echo(),
    {
        self.progress.count_delete();
    }

    /// Counts a note pushed at the server's request.
    pub fn count_upload(&mut self)
        requires
            old(self).wf(),
            old(self).progress().total_received() < usize::MAX,
        ensures
            final(self).same_setup(old(self)),
            final(self).wf(),
            final(self).progress() == (Progress {
                received_upload: (old(self).progress().received_upload + 1) as usize,
                ..old(self).progress()
            }).checked(),
            final(self).echo() == old(self).echo(),
    {
        self.progress.count_upload();
    }

    /// Records the server's end message.
    pub fn handle_sync_end(&mut self, last_time: i64, need_modify: i64, need_delete: i64, need_upload: i64)
        requires
            old(self).wf(),
            (need_modify as usize) + (need_delete as usize) + (need_upload as usize) <= usize::MAX,
        ensures
            final(self).same_setup(old(self)),
            final(self).wf(),
            final(self).progress() == old(self).progress().spec_after_end(last_time, need_modify, need_delete, need_upload),
            final(self).echo() == old(self).echo(),
    {
        self.progress.record_end(last_time, need_modify, need_delete, need_upload);
    }

    /// Whether the echo of `path` is `hash`.
    fn echo_matches(&self, path: &str, hash: &str) -> (r: bool)
        ensures
            r == self.echo_is(path@, hash@),
    {
        self.echo_hashes.is(path, hash)
    }

    /// Decides on a modification from the server to `path` with content
    /// hash `content_hash`: skipped when no path is named; suppressed (and
    /// the echo forgotten) when it is the echo of the client's own push;
    /// otherwise to be applied, after forgetting a deletion marker.
    pub fn on_note_modify(&mut self, path: &str, content_hash: &str) -> (r: Apply)
        requires
            old(self).wf(),
        ensures
            final(self).same_setup(old(self)),
            final(self).wf(),
            final(self).progress() == old(self).progress(),
            path@.len() == 0 ==> r == Apply::Skip && final(self).echo() == old(self).echo(),
            path@.len() > 0 && old(self).echo_is(path@, content_hash@) ==> r == Apply::EchoSuppressed
                && final(self).echo() == old(self).echo().remove(path@),
            path@.len() > 0 && !old(self).echo_is(path@, content_hash@) && old(self).echo_is(path@, DELETED_MARKER@)
                ==> r == Apply::Proceed && final(self).echo() == old(self).echo().remove(path@),
            path@.len() > 0 && !old(self).echo_is(path@, content_hash@) && !old(self).echo_is(path@, DELETED_MARKER@)
                ==> r == Apply::Proceed && final(self).echo() == old(self).echo(),
    {
        if path.is_empty() {
            return Apply::Skip;
        }
        if self.echo_matches(path, content_hash) {
            self.echo_hashes.forget(path);
            return Apply::EchoSuppressed;
        }
        if self.echo_matches(path, DELETED_MARKER) {
            self.echo_hashes.forget(path);
        }
        Apply::Proceed
    }

    /// Records that the content with hash `content_hash` was written to `path`.
    pub fn note_written(&mut self, path: &str, content_hash: &str)
        requires
            old(self).wf(),
        ensures
            final(self).same_setup(old(self)),
            final(self).wf(),
            final(self).progress() == old(self).progress(),
            final(self).echo() == old(self).echo().insert(path@, content_hash@),
    {
        self.echo_hashes.set(path, content_hash);
    }

    /// Decides on a deletion from the server of `path`: skipped when no path
    /// is named; suppressed (and the marker forgotten) when it is the echo of
    /// the client's own deletion; otherwise to be applied.
    pub fn on_note_delete(&mut self, path: &str) -> (r: Apply)
        requires
            old(self).wf(),
        ensures
            final(self).same_setup(old(self)),
            final(self).wf(),
            final(self).progress() == old(self).progress(),
            path@.len() == 0 ==> r == Apply::Skip && final(self).echo() == old(self).echo(),
            path@.len() > 0 && old(self).echo_is(path@, DELETED_MARKER@) ==> r == Apply::EchoSuppressed
                && final(self).echo() == old(self).echo().remove(path@),
            path@.len() > 0 && !old(self).echo_is(path@, DELETED_MARKER@) ==> r == Apply::Proceed
                && final(self).echo() == old(self).echo(),
    {
        if path.is_empty() {
            return Apply::Skip;
        }
        if self.echo_matches(path, DELETED_MARKER) {
            self.echo_hashes.forget(path);
            return Apply::EchoSuppressed;
        }
        Apply::Proceed
    }

    /// Records that `path` was deleted (or found absent) at the server's request.
    pub fn note_deleted(&mut self, path: &str)
        requires
            old(self).wf(),
        ensures
            final(self).same_setup(old(self)),
            final(self).wf(),
            final(self).progress() == old(self).progress(),
            final(self).echo() == old(self).echo().insert(path@, DELETED_MARKER@),
    {
        self.note_written(path, DELETED_MARKER);
    }

    /// Decides on a rename from the server: nothing unless both paths are
    /// named; otherwise the old path is marked deleted and the rename is to
    /// be applied.
    pub fn on_note_rename(&mut self, old_path: &str, new_path: &str) -> (r: bool)
        requires
            old(self).wf(),
        ensures
            final(self).same_setup(old(self)),
            final(self).wf(),
            final(self).progress() == old(self).progress(),
            r == (old_path@.len() > 0 && new_path@.len() > 0),
            r ==> final(self).echo() == old(self).echo().insert(old_path@, DELETED_MARKER@),
            !r ==> final(self).echo() == old(self).echo(),
    {
        if old_path.is_empty() || new_path.is_empty() {
            return false;
        }
        self.note_written(old_path, DELETED_MARKER);
        true
    }

    /// Whether a modification time from the server is to be applied: a path
    /// is named and the time is not zero.
    pub fn should_apply_mtime(path: &str, mtime: i64) -> (r: bool)
        ensures
            r == (path@.len() > 0 && mtime != 0),
    {
        !path.is_empty() && mtime != 0
    }

    /// Whether a local note with hash `content_hash` is to be pushed: always
    /// when forced, otherwise unless its echo is that hash.
    pub fn should_push_modify(&self, path: &str, content_hash: &str, force: bool) -> (r: bool)
        ensures
            r == (force || !self.echo_is(path@, content_hash@)),
    {
        force || !self.echo_matches(path, content_hash)
    }

    /// Records that the content with hash `content_hash` was pushed for `path`.
    pub fn modify_pushed(&mut self, path: &str, content_hash: &str)
        requires
            old(self).wf(),
        ensures
            final(self).same_setup(old(self)),
            final(self).wf(),
            final(self).progress() == old(self).progress(),
            final(self).echo() == old(self).echo().insert(path@, content_hash@),
    {
        self.note_written(path, content_hash);
    }

    /// Forgets the echo of `path` before its deletion is pushed.
    pub fn begin_push_delete(&mut self, path: &str)
        requires
            old(self).wf(),
        ensures
            final(self).same_setup(old(self)),
            final(self).wf(),
            final(self).progress() == old(self).progress(),
            final(self).echo() == old(self).echo().remove(path@),
    {
        self.echo_hashes.forget(path);
    }

    /// Records that the deletion of `path` was pushed.
    pub fn delete_pushed(&mut self, path: &str)
        requires
            old(self).wf(),
        ensures
            final(self).same_setup(old(self)),
            final(self).wf(),
            final(self).progress() == old(self).progress(),
            final(self).echo() == old(self).echo().insert(path@, DELETED_MARKER@),
    {
        self.note_written(path, DELETED_MARKER);
    }

    /// Whether a vault-relative path is in a config directory.
    pub fn is_config_path(&self, rel: &str) -> (r: bool)
        ensures
            r == spec_note_config_path(rel@),
    {
        proof {
            reveal_strlit(".obsidian/");
            reveal_strlit(".agents/");
        }
        let v = str_chars(rel);
        chars_start_with(&v, &str_chars(".obsidian/")) || chars_start_with(&v, &str_chars(".agents/"))
    }

    /// Whether a vault-relative path is left out by the exclude patterns.
    pub fn is_excluded(&self, rel: &str) -> (r: bool)
        ensures
            r == spec_note_excluded(rel@, self.spec_patterns()),
    {
        proof {
            reveal_strlit(".~#");
        }
        let v = str_chars(rel);
        if crate::paths::chars_contain(&v, &str_chars(".~#")) {
            return true;
        }
        excluded_by_patterns(&v, &self.exclude_patterns)
    }

    /// Whether a file found in the vault is a note to sync.
    pub fn is_note_candidate(&self, rel: &str) -> (r: bool)
        ensures
            r == spec_note_candidate(rel@, self.spec_patterns()),
    {
        proof {
            reveal_strlit("md");
        }
        let is_md = match extension_of(rel) {
            Some(ext) => str_eq(ext.as_str(), "md"),
            None => false,
        };
        is_md && !self.is_config_path(rel) && !self.is_excluded(rel)
    }

    /// The notes changed after `since`, in order (the local notes sent with
    /// an incremental sync request).
    pub fn collect_local_notes_filtered(notes: Vec<NoteSyncCheck>, since: i64) -> (r: Vec<NoteSyncCheck>)
        ensures
            r@ == notes@.filter(changed_after(since)),
    {
        let ghost orig = notes@;
        let mut notes = notes;
        let mut kept: Vec<NoteSyncCheck> = Vec::new();
        let ghost mut k: int = 0;
        while notes.len() > 0
            invariant
                0 <= k <= orig.len(),
                notes@ == orig.skip(k),
                kept@ == orig.take(k).filter(changed_after(since)),
            decreases notes@.len(),
        {
            let n = notes.remove(0);
            proof {
                assert(n == orig[k]);
                assert(orig.take(k + 1) =~= orig.take(k).push(n));
                orig.take(k).lemma_filter_push(n, changed_after(since));
            }
            if n.mtime > since {
                kept.push(n);
            }
            proof {
                k = k + 1;
                assert(notes@ =~= orig.skip(k));
            }
        }
        proof {
            assert(orig.take(k) =~= orig);
        }
        kept
    }
}

/// How many times a local note is read while waiting for it to settle.
pub const STABLE_READ_ATTEMPTS: usize = 5;

/// Milliseconds between two reads of a local note that is still changing.
pub const STABLE_READ_DELAY_MS: u64 = 150;

/// Reading a local note that an editor may still be writing: it is read
/// until two reads in a row see the same size and modification time (and,
/// but on the last attempt, some content), at most
/// [`STABLE_READ_ATTEMPTS`] times; the last read is taken in any case.
pub struct StableRead {
    attempt: usize,
    last: Option<(u64, Option<u128>)>,
}

impl StableRead {
    /// The number of reads so far.
    pub closed spec fn spec_attempt(&self) -> usize {
        self.attempt
    }

    /// The size and modification time (nanoseconds since the epoch, where
    /// known) that the previous read saw.
    pub closed spec fn spec_last(&self) -> Option<(u64, Option<u128>)> {
        self.last
    }

    /// No read yet.
    pub fn new() -> (r: Self)
        ensures
            r.spec_attempt() == 0,
            r.spec_last() is None,
    {
        StableRead { attempt: 0, last: None }
    }

    /// Takes a read that saw a file of `len` bytes modified at `modified`,
    /// with empty content or not: whether to keep this read (`true`) or to
    /// wait [`STABLE_READ_DELAY_MS`] and read again.
    pub fn observe(&mut self, len: u64, modified: Option<u128>, content_empty: bool) -> (accept: bool)
        requires
            old(self).spec_attempt() < STABLE_READ_ATTEMPTS,
        ensures
            ({
                let is_last = old(self).spec_attempt() + 1 == STABLE_READ_ATTEMPTS;
                let stable = old(self).spec_last() == Some((len, modified));
                accept == ((stable && (!content_empty || is_last)) || is_last)
            }),
            final(self).spec_attempt() == old(self).spec_attempt() + 1,
            final(self).spec_last() == Some((len, modified)),
    {
        let is_last = self.attempt + 1 == STABLE_READ_ATTEMPTS;
        let stable = match self.last {
            Some((l, m)) => l == len && match (m, modified) {
                (Some(a), Some(b)) => a == b,
                (None, None) => true,
                _ => false,
            },
            None => false,
        };
        self.attempt = self.attempt + 1;
        self.last = Some((len, modified));
        (stable && (!content_empty || is_last)) || is_last
    }
}

/// Echo suppression for notes.  Once `hash` is recorded for `path` (by
/// `note_written`, `modify_pushed` or, with the deletion marker,
/// `note_deleted` and `delete_pushed`), the echo of `path` is `hash`: a local
/// note with that hash is not pushed unless forced (`should_push_modify`),
/// and the server's message with it is suppressed (`on_note_modify`,
/// `on_note_delete`).  Once suppressed, the echo is gone: a later message
/// for `path` is applied, and the rest of the echo is as before.
pub proof fn lemma_note_echo_suppression(
    before: NoteSync,
    recorded: NoteSync,
    consumed: NoteSync,
    path: Seq<char>,
    hash: Seq<char>,
)
    requires
        recorded.echo() == before.echo().insert(path, hash),
        consumed.echo() == recorded.echo().remove(path),
    ensures
        recorded.echo_is(path, hash),
        forall|h: Seq<char>| !consumed.echo_is(path, h),
        consumed.echo() == before.echo().remove(path),
{
    assert(consumed.echo() =~= before.echo().remove(path));
}

/// How each kind of message is named on the wire after the object `Note`:
/// the protocol's verb for it (empty for `Ignore`).
pub open spec fn note_message_name(k: NoteMessage) -> Seq<char> {
    match k {
        NoteMessage::Modify => "SyncModify"@,
        NoteMessage::Delete => "SyncDelete"@,
        NoteMessage::Rename => "SyncRename"@,
        NoteMessage::Mtime => "SyncMtime"@,
        NoteMessage::NeedPush => "SyncNeedPush"@,
        NoteMessage::End => "SyncEnd"@,
        _ => Seq::empty(),
    }
}

/// During a note sync exchange, an action is handled as kind `k` exactly when its
/// wire name is `Note` followed by the name of that kind, so every such action
/// reaches its own handler and none is dropped or sent to another.
pub proof fn lemma_note_message_by_name(a: ServerAction, k: NoteMessage)
    requires
        k != NoteMessage::Ignore,
    ensures
        spec_note_message(Action::Server(a)) == k <==> server_action_name(a) == "Note"@ + note_message_name(k),
{
    let b = match k {
        NoteMessage::Modify => ServerAction::NoteSyncModify,
        NoteMessage::Delete => ServerAction::NoteSyncDelete,
        NoteMessage::Rename => ServerAction::NoteSyncRename,
        NoteMessage::Mtime => ServerAction::NoteSyncMtime,
        NoteMessage::NeedPush => ServerAction::NoteSyncNeedPush,
        NoteMessage::End => ServerAction::NoteSyncEnd,
        _ => ServerAction::NoteSyncModify,
    };
    match k {
        NoteMessage::Modify => {
            reveal_strlit("Note");
            reveal_strlit("SyncModify");
            reveal_strlit("NoteSyncModify");
            assert("Note"@ + "SyncModify"@ =~= "NoteSyncModify"@);
        },
        NoteMessage::Delete => {
            reveal_strlit("Note");
            reveal_strlit("SyncDelete");
            reveal_strlit("NoteSyncDelete");
            assert("Note"@ + "SyncDelete"@ =~= "NoteSyncDelete"@);
        },
        NoteMessage::Rename => {
            reveal_strlit("Note");
            reveal_strlit("SyncRename");
            reveal_strlit("NoteSyncRename");
            assert("Note"@ + "SyncRename"@ =~= "NoteSyncRename"@);
        },
        NoteMessage::Mtime => {
            reveal_strlit("Note");
            reveal_strlit("SyncMtime");
            reveal_strlit("NoteSyncMtime");
            assert("Note"@ + "SyncMtime"@ =~= "NoteSyncMtime"@);
        },
        NoteMessage::NeedPush => {
            reveal_strlit("Note");
            reveal_strlit("SyncNeedPush");
            reveal_strlit("NoteSyncNeedPush");
            assert("Note"@ + "SyncNeedPush"@ =~= "NoteSyncNeedPush"@);
        },
        NoteMessage::End => {
            reveal_strlit("Note");
            reveal_strlit("SyncEnd");
            reveal_strlit("NoteSyncEnd");
            assert("Note"@ + "SyncEnd"@ =~= "NoteSyncEnd"@);
        },
        _ => {},
    }
    assert(spec_note_message(Action::Server(b)) == k);
    assert(server_action_name(b) == "Note"@ + note_message_name(k));
    lemma_action_name_roundtrip(Action::Server(a));
    lemma_action_name_roundtrip(Action::Server(b));
    if server_action_name(a) == server_action_name(b) {
        assert(action_name(Action::Server(a)) == action_name(Action::Server(b)));
    }
}

} // verus!
