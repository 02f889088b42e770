//! Folder sync: applies the folder creations, deletions and renames that the
//! server pushes, leaving the config directories alone.
//!
//! Creating, removing and renaming directories belongs to the application;
//! the functions here decide what is to be done.

use vstd::prelude::*;
use crate::paths::{chars_start_with, has_prefix};
use crate::protocol::actions::{action_name, lemma_action_name_roundtrip, server_action_name, Action, ServerAction};
use crate::state::SyncState;
use crate::sync::rules::{first_component, first_component_of};
use crate::text::{str_chars, str_eq};

verus! {

/// Whether a vault-relative path lies in one of the config directories.
pub open spec fn spec_config_dir(rel: Seq<char>, config_dirs: Seq<Seq<char>>) -> bool {
    let first = first_component(rel);
    has_prefix(first, seq!['.']) && config_dirs.contains(first)
}

/// How a message of a folder sync exchange is handled.
#[derive(Debug, Clone, Copy, PartialEq, Eq, Structural)]
pub enum FolderMessage {
    /// A folder to create.
    Create,
    /// A folder to delete.
    Delete,
    /// A folder to rename.
    Rename,
    /// The end message, which ends the exchange.
    End,
    /// Nothing to do.
    Ignore,
}

/// How each action is handled during a folder sync exchange.
pub open spec fn spec_folder_message(action: Action) -> FolderMessage {
    match action {
        Action::Server(ServerAction::FolderSyncModify) => FolderMessage::Create,
        Action::Server(ServerAction::FolderSyncDelete) => FolderMessage::Delete,
        Action::Server(ServerAction::FolderSyncRename) => FolderMessage::Rename,
        Action::Server(ServerAction::FolderSyncEnd) => FolderMessage::End,
        _ => FolderMessage::Ignore,
    }
}

/// Classifies a message of a folder sync exchange by its action.
pub fn classify_folder_action(action: Action) -> (r: FolderMessage)
    ensures
        r == spec_folder_message(action),
{
    match action {
        Action::Server(ServerAction::FolderSyncModify) => FolderMessage::Create,
        Action::Server(ServerAction::FolderSyncDelete) => FolderMessage::Delete,
        Action::Server(ServerAction::FolderSyncRename) => FolderMessage::Rename,
        Action::Server(ServerAction::FolderSyncEnd) => FolderMessage::End,
        _ => FolderMessage::Ignore,
    }
}

/// Folder sync engine.
pub struct FolderSync {
    vault_path: String,
    state: SyncState,
    vault: String,
    config_dirs: Vec<String>,
}

impl FolderSync {
    /// The local vault directory.
    pub closed spec fn spec_vault_path(&self) -> Seq<char> {
        self.vault_path@
    }

    /// The sync state.
    pub closed spec fn spec_state(&self) -> SyncState {
        self.state
    }

    /// The vault name used in protocol messages.
    pub closed spec fn spec_vault(&self) -> Seq<char> {
        self.vault@
    }

    /// The config directories, which folder sync leaves alone.
    pub closed spec fn spec_config_dirs(&self) -> Seq<Seq<char>> {
        self.config_dirs@.map_values(|s: String| s@)
    }

    /// A folder engine for a vault; it starts from the default state.
    pub fn new(vault_path: String, _state: SyncState, vault: String, config_dirs: Vec<String>) -> (f: Self)
        ensures
            f.spec_vault_path() == vault_path@,
            f.spec_state() == (SyncState { last_note_sync_time: 0, last_file_sync_time: 0, last_setting_sync_time: 0 }),
            f.spec_vault() == vault@,
            f.spec_config_dirs() == config_dirs@.map_values(|s: String| s@),
    {
        FolderSync { vault_path, state: SyncState::default(), vault, config_dirs }
    }

    /// The local vault directory.
    pub fn vault_path(&self) -> (r: &String)
        ensures
            r@ == self.spec_vault_path(),
    {
        &self.vault_path
    }

    /// The vault name used in protocol messages.
    pub fn vault(&self) -> (r: &String)
        ensures
            r@ == self.spec_vault(),
    {
        &self.vault
    }

    /// Whether a vault-relative path lies in one of the config directories.
    pub fn is_config_dir(&self, rel: &str) -> (r: bool)
        ensures
            r == spec_config_dir(rel@, self.spec_config_dirs()),
    {
        let first = first_component_of(rel);
        let fv = str_chars(first.as_str());
        let mut dot: Vec<char> = Vec::new();
        dot.push('.');
        proof {
            assert(dot@ =~= seq!['.']);
        }
        if !chars_start_with(&fv, &dot) {
            return false;
        }
        let ghost dirs = self.spec_config_dirs();
        let mut i: usize = 0;
        while i < self.config_dirs.len()
            invariant
                i <= self.config_dirs@.len(),
                dirs == self.config_dirs@.map_values(|s: String| s@),
                first@ == first_component(rel@),
                has_prefix(first@, seq!['.']),
                forall|k: int| 0 <= k < i ==> dirs[k] != first@,
            decreases self.config_dirs@.len() - i,
        {
            if str_eq(self.config_dirs[i].as_str(), first.as_str()) {
                proof {
                    assert(dirs[i as int] == first@);
                    assert(dirs.contains(first@));
                }
                return true;
            }
            i += 1;
        }
        false
    }

    /// Whether a folder named by the server is to be created or deleted:
    /// a path is named and it is not in a config directory.
    pub fn should_apply(&self, rel: &str) -> (r: bool)
        ensures
            r == (rel@.len() > 0 && !spec_config_dir(rel@, self.spec_config_dirs())),
    {
        !rel.is_empty() && !self.is_config_dir(rel)
    }

    /// Whether a folder rename from the server is to be applied: both paths
    /// are named and neither is in a config directory.
    pub fn should_rename(&self, old_path: &str, new_path: &str) -> (r: bool)
        ensures
            r == (old_path@.len() > 0 && new_path@.len() > 0 && !spec_config_dir(old_path@, self.spec_config_dirs())
                && !spec_config_dir(new_path@, self.spec_config_dirs())),
    {
        !old_path.is_empty() && !new_path.is_empty() && !self.is_config_dir(old_path) && !self.is_config_dir(new_path)
    }

    /// Whether a directory found in the vault is reported to the server: it
    /// is not the vault itself and not in a config directory.
    pub fn is_folder_candidate(&self, rel: &str) -> (r: bool)
        ensures
            r == (rel@.len() > 0 && !spec_config_dir(rel@, self.spec_config_dirs())),
    {
        self.should_apply(rel)
    }
}

/// How each kind of message is named on the wire after the object `Folder`:
/// the protocol's verb for it (empty for `Ignore`).
pub open spec fn folder_message_name(k: FolderMessage) -> Seq<char> {
    match k {
        FolderMessage::Create => "SyncModify"@,
        FolderMessage::Delete => "SyncDelete"@,
        FolderMessage::Rename => "SyncRename"@,
        FolderMessage::End => "SyncEnd"@,
        _ => Seq::empty(),
    }
}

/// During a folder sync exchange, an action is handled as kind `k` exactly when its
/// wire name is `Folder` followed by the name of that kind, so every such action
/// reaches its own handler and none is dropped or sent to another.
pub proof fn lemma_folder_message_by_name(a: ServerAction, k: FolderMessage)
    requires
        k != FolderMessage::Ignore,
    ensures
        spec_folder_message(Action::Server(a)) == k <==> server_action_name(a) == "Folder"@ + folder_message_name(k),
{
    let b = match k {
        FolderMessage::Create => ServerAction::FolderSyncModify,
        FolderMessage::Delete => ServerAction::FolderSyncDelete,
        FolderMessage::Rename => ServerAction::FolderSyncRename,
        FolderMessage::End => ServerAction::FolderSyncEnd,
        _ => ServerAction::FolderSyncModify,
    };
    match k {
        FolderMessage::Create => {
            reveal_strlit("Folder");
            reveal_strlit("SyncModify");
            reveal_strlit("FolderSyncModify");
            assert("Folder"@ + "SyncModify"@ =~= "FolderSyncModify"@);
        },
        FolderMessage::Delete => {
            reveal_strlit("Folder");
            reveal_strlit("SyncDelete");
            reveal_strlit("FolderSyncDelete");
            assert("Folder"@ + "SyncDelete"@ =~= "FolderSyncDelete"@);
        },
        FolderMessage::Rename => {
            reveal_strlit("Folder");
            reveal_strlit("SyncRename");
            reveal_strlit("FolderSyncRename");
            assert("Folder"@ + "SyncRename"@ =~= "FolderSyncRename"@);
        },
        FolderMessage::End => {
            reveal_strlit("Folder");
            reveal_strlit("SyncEnd");
            reveal_strlit("FolderSyncEnd");
            assert("Folder"@ + "SyncEnd"@ =~= "FolderSyncEnd"@);
        },
        _ => {},
    }
    assert(spec_folder_message(Action::Server(b)) == k);
    assert(server_action_name(b) == "Folder"@ + folder_message_name(k));
    lemma_action_name_roundtrip(Action::Server(a));
    lemma_action_name_roundtrip(Action::Server(b));
    if server_action_name(a) == server_action_name(b) {
        assert(action_name(Action::Server(a)) == action_name(Action::Server(b)));
    }
}

} // verus!
