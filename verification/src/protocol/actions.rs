//! Action names of the `ACTION|JSON` text protocol.

use vstd::prelude::*;
use vstd::string::*;
use crate::text::str_eq;

verus! {

/// Client-to-server action types.
#[derive(Debug, Clone, Copy, PartialEq, Eq, Structural)]
pub enum ClientAction {
    Authorization,
    ClientInfo,
    NoteSync,
    NoteModify,
    NoteDelete,
    NoteRename,
    NoteCheck,
    NoteRePush,
    FileSync,
    FileUploadCheck,
    FileDelete,
    FileChunkDownload,
    FolderSync,
    FolderModify,
    FolderDelete,
    FolderRename,
    SettingSync,
    SettingModify,
    SettingDelete,
}

/// Server-to-client action types.
#[derive(Debug, Clone, Copy, PartialEq, Eq, Structural)]
pub enum ServerAction {
    NoteSyncEnd,
    NoteSyncModify,
    NoteSyncDelete,
    NoteSyncRename,
    NoteSyncMtime,
    NoteSyncNeedPush,
    NoteModifyAck,
    NoteDeleteAck,
    FileSyncUpdate,
    FileSyncDelete,
    FileSyncRename,
    FileSyncMtime,
    FileSyncChunkDownload,
    FileUpload,
    FileUploadAck,
    FileDeleteAck,
    FileSyncEnd,
    SettingSyncModify,
    SettingSyncDelete,
    SettingSyncRename,
    SettingSyncMtime,
    SettingSyncNeedUpload,
    SettingSyncEnd,
    SettingModifyAck,
    FolderSyncModify,
    FolderSyncDelete,
    FolderSyncRename,
    FolderSyncEnd,
}

/// Every action of the protocol, in either direction.
#[derive(Debug, Clone, Copy, PartialEq, Eq, Structural)]
pub enum Action {
    Client(ClientAction),
    Server(ServerAction),
}

/// The wire name of a client action.
pub open spec fn client_action_name(a: ClientAction) -> Seq<char> {
    match a {
        ClientAction::Authorization => "Authorization"@,
        ClientAction::ClientInfo => "ClientInfo"@,
        ClientAction::NoteSync => "NoteSync"@,
        ClientAction::NoteModify => "NoteModify"@,
        ClientAction::NoteDelete => "NoteDelete"@,
        ClientAction::NoteRename => "NoteRename"@,
        ClientAction::NoteCheck => "NoteCheck"@,
        ClientAction::NoteRePush => "NoteRePush"@,
        ClientAction::FileSync => "FileSync"@,
        ClientAction::FileUploadCheck => "FileUploadCheck"@,
        ClientAction::FileDelete => "FileDelete"@,
        ClientAction::FileChunkDownload => "FileChunkDownload"@,
        ClientAction::FolderSync => "FolderSync"@,
        ClientAction::FolderModify => "FolderModify"@,
        ClientAction::FolderDelete => "FolderDelete"@,
        ClientAction::FolderRename => "FolderRename"@,
        ClientAction::SettingSync => "SettingSync"@,
        ClientAction::SettingModify => "SettingModify"@,
        ClientAction::SettingDelete => "SettingDelete"@,
    }
}

/// The wire name of a server action.
pub open spec fn server_action_name(a: ServerAction) -> Seq<char> {
    match a {
        ServerAction::NoteSyncEnd => "NoteSyncEnd"@,
        ServerAction::NoteSyncModify => "NoteSyncModify"@,
        ServerAction::NoteSyncDelete => "NoteSyncDelete"@,
        ServerAction::NoteSyncRename => "NoteSyncRename"@,
        ServerAction::NoteSyncMtime => "NoteSyncMtime"@,
        ServerAction::NoteSyncNeedPush => "NoteSyncNeedPush"@,
        ServerAction::NoteModifyAck => "NoteModifyAck"@,
        ServerAction::NoteDeleteAck => "NoteDeleteAck"@,
        ServerAction::FileSyncUpdate => "FileSyncUpdate"@,
        ServerAction::FileSyncDelete => "FileSyncDelete"@,
        ServerAction::FileSyncRename => "FileSyncRename"@,
        ServerAction::FileSyncMtime => "FileSyncMtime"@,
        ServerAction::FileSyncChunkDownload => "FileSyncChunkDownload"@,
        ServerAction::FileUpload => "FileUpload"@,
        ServerAction::FileUploadAck => "FileUploadAck"@,
        ServerAction::FileDeleteAck => "FileDeleteAck"@,
        ServerAction::FileSyncEnd => "FileSyncEnd"@,
        ServerAction::SettingSyncModify => "SettingSyncModify"@,
        ServerAction::SettingSyncDelete => "SettingSyncDelete"@,
        ServerAction::SettingSyncRename => "SettingSyncRename"@,
        ServerAction::SettingSyncMtime => "SettingSyncMtime"@,
        ServerAction::SettingSyncNeedUpload => "SettingSyncNeedUpload"@,
        ServerAction::SettingSyncEnd => "SettingSyncEnd"@,
        ServerAction::SettingModifyAck => "SettingModifyAck"@,
        ServerAction::FolderSyncModify => "FolderSyncModify"@,
        ServerAction::FolderSyncDelete => "FolderSyncDelete"@,
        ServerAction::FolderSyncRename => "FolderSyncRename"@,
        ServerAction::FolderSyncEnd => "FolderSyncEnd"@,
    }
}

/// The wire name of an action.
pub open spec fn action_name(a: Action) -> Seq<char> {
    match a {
        Action::Client(c) => client_action_name(c),
        Action::Server(s) => server_action_name(s),
    }
}

impl ClientAction {
    /// The wire name of this action (what `Display` prints).
    pub fn name(&self) -> (s: &'static str)
        ensures
            s@ == client_action_name(*self),
    {
        match self {
            ClientAction::Authorization => "Authorization",
            ClientAction::ClientInfo => "ClientInfo",
            ClientAction::NoteSync => "NoteSync",
            ClientAction::NoteModify => "NoteModify",
            ClientAction::NoteDelete => "NoteDelete",
            ClientAction::NoteRename => "NoteRename",
            ClientAction::NoteCheck => "NoteCheck",
            ClientAction::NoteRePush => "NoteRePush",
            ClientAction::FileSync => "FileSync",
            ClientAction::FileUploadCheck => "FileUploadCheck",
            ClientAction::FileDelete => "FileDelete",
            ClientAction::FileChunkDownload => "FileChunkDownload",
            ClientAction::FolderSync => "FolderSync",
            ClientAction::FolderModify => "FolderModify",
            ClientAction::FolderDelete => "FolderDelete",
            ClientAction::FolderRename => "FolderRename",
            ClientAction::SettingSync => "SettingSync",
            ClientAction::SettingModify => "SettingModify",
            ClientAction::SettingDelete => "SettingDelete",
        }
    }

    /// The wire name of this action as an owned string.
    pub fn to_string(&self) -> (s: String)
        ensures
            s@ == client_action_name(*self),
    {
        String::from_str(self.name())
    }
}

impl ServerAction {
    /// The wire name of this action (what `Display` prints).
    pub fn name(&self) -> (s: &'static str)
        ensures
            s@ == server_action_name(*self),
    {
        match self {
            ServerAction::NoteSyncEnd => "NoteSyncEnd",
            ServerAction::NoteSyncModify => "NoteSyncModify",
            ServerAction::NoteSyncDelete => "NoteSyncDelete",
            ServerAction::NoteSyncRename => "NoteSyncRename",
            ServerAction::NoteSyncMtime => "NoteSyncMtime",
            ServerAction::NoteSyncNeedPush => "NoteSyncNeedPush",
            ServerAction::NoteModifyAck => "NoteModifyAck",
            ServerAction::NoteDeleteAck => "NoteDeleteAck",
            ServerAction::FileSyncUpdate => "FileSyncUpdate",
            ServerAction::FileSyncDelete => "FileSyncDelete",
            ServerAction::FileSyncRename => "FileSyncRename",
            ServerAction::FileSyncMtime => "FileSyncMtime",
            ServerAction::FileSyncChunkDownload => "FileSyncChunkDownload",
            ServerAction::FileUpload => "FileUpload",
            ServerAction::FileUploadAck => "FileUploadAck",
            ServerAction::FileDeleteAck => "FileDeleteAck",
            ServerAction::FileSyncEnd => "FileSyncEnd",
            ServerAction::SettingSyncModify => "SettingSyncModify",
            ServerAction::SettingSyncDelete => "SettingSyncDelete",
            ServerAction::SettingSyncRename => "SettingSyncRename",
            ServerAction::SettingSyncMtime => "SettingSyncMtime",
            ServerAction::SettingSyncNeedUpload => "SettingSyncNeedUpload",
            ServerAction::SettingSyncEnd => "SettingSyncEnd",
            ServerAction::SettingModifyAck => "SettingModifyAck",
            ServerAction::FolderSyncModify => "FolderSyncModify",
            ServerAction::FolderSyncDelete => "FolderSyncDelete",
            ServerAction::FolderSyncRename => "FolderSyncRename",
            ServerAction::FolderSyncEnd => "FolderSyncEnd",
        }
    }

    /// The wire name of this action as an owned string.
    pub fn to_string(&self) -> (s: String)
        ensures
            s@ == server_action_name(*self),
    {
        String::from_str(self.name())
    }
}

impl Action {
    /// The wire name of this action.
    pub fn name(&self) -> (s: &'static str)
        ensures
            s@ == action_name(*self),
    {
        match self {
            Action::Client(a) => a.name(),
            Action::Server(a) => a.name(),
        }
    }

    /// The wire name of this action as an owned string.
    pub fn to_string(&self) -> (s: String)
        ensures
            s@ == action_name(*self),
    {
        String::from_str(self.name())
    }

    /// Parses a wire name. Fails, with `Unknown action: <name>`, exactly when no
    /// action has that name.
    pub fn from_str(s: &str) -> (r: Result<Action, String>)
        ensures
            match r {
                Ok(a) => action_name(a) == s@,
                Err(msg) => (forall|a: Action| action_name(a) != s@) && msg@ == "Unknown action: "@ + s@,
            },
    {
        if str_eq(s, "Authorization") {
            Ok(Action::Client(ClientAction::Authorization))
        } else if str_eq(s, "ClientInfo") {
            Ok(Action::Client(ClientAction::ClientInfo))
        } else if str_eq(s, "NoteSync") {
            Ok(Action::Client(ClientAction::NoteSync))
        } else if str_eq(s, "NoteModify") {
            Ok(Action::Client(ClientAction::NoteModify))
        } else if str_eq(s, "NoteDelete") {
            Ok(Action::Client(ClientAction::NoteDelete))
        } else if str_eq(s, "NoteRename") {
            Ok(Action::Client(ClientAction::NoteRename))
        } else if str_eq(s, "NoteCheck") {
            Ok(Action::Client(ClientAction::NoteCheck))
        } else if str_eq(s, "NoteRePush") {
            Ok(Action::Client(ClientAction::NoteRePush))
        } else if str_eq(s, "FileSync") {
            Ok(Action::Client(ClientAction::FileSync))
        } else if str_eq(s, "FileUploadCheck") {
            Ok(Action::Client(ClientAction::FileUploadCheck))
        } else if str_eq(s, "FileDelete") {
            Ok(Action::Client(ClientAction::FileDelete))
        } else if str_eq(s, "FileChunkDownload") {
            Ok(Action::Client(ClientAction::FileChunkDownload))
        } else if str_eq(s, "FolderSync") {
            Ok(Action::Client(ClientAction::FolderSync))
        } else if str_eq(s, "FolderModify") {
            Ok(Action::Client(ClientAction::FolderModify))
        } else if str_eq(s, "FolderDelete") {
            Ok(Action::Client(ClientAction::FolderDelete))
        } else if str_eq(s, "FolderRename") {
            Ok(Action::Client(ClientAction::FolderRename))
        } else if str_eq(s, "SettingSync") {
            Ok(Action::Client(ClientAction::SettingSync))
        } else if str_eq(s, "SettingModify") {
            Ok(Action::Client(ClientAction::SettingModify))
        } else if str_eq(s, "SettingDelete") {
            Ok(Action::Client(ClientAction::SettingDelete))
        } else if str_eq(s, "NoteSyncEnd") {
            Ok(Action::Server(ServerAction::NoteSyncEnd))
        } else if str_eq(s, "NoteSyncModify") {
            Ok(Action::Server(ServerAction::NoteSyncModify))
        } else if str_eq(s, "NoteSyncDelete") {
            Ok(Action::Server(ServerAction::NoteSyncDelete))
        } else if str_eq(s, "NoteSyncRename") {
            Ok(Action::Server(ServerAction::NoteSyncRename))
        } else if str_eq(s, "NoteSyncMtime") {
            Ok(Action::Server(ServerAction::NoteSyncMtime))
        } else if str_eq(s, "NoteSyncNeedPush") {
            Ok(Action::Server(ServerAction::NoteSyncNeedPush))
        } else if str_eq(s, "NoteModifyAck") {
            Ok(Action::Server(ServerAction::NoteModifyAck))
        } else if str_eq(s, "NoteDeleteAck") {
            Ok(Action::Server(ServerAction::NoteDeleteAck))
        } else if str_eq(s, "FileSyncUpdate") {
            Ok(Action::Server(ServerAction::FileSyncUpdate))
        } else if str_eq(s, "FileSyncDelete") {
            Ok(Action::Server(ServerAction::FileSyncDelete))
        } else if str_eq(s, "FileSyncRename") {
            Ok(Action::Server(ServerAction::FileSyncRename))
        } else if str_eq(s, "FileSyncMtime") {
            Ok(Action::Server(ServerAction::FileSyncMtime))
        } else if str_eq(s, "FileSyncChunkDownload") {
            Ok(Action::Server(ServerAction::FileSyncChunkDownload))
        } else if str_eq(s, "FileUpload") {
            Ok(Action::Server(ServerAction::FileUpload))
        } else if str_eq(s, "FileUploadAck") {
            Ok(Action::Server(ServerAction::FileUploadAck))
        } else if str_eq(s, "FileDeleteAck") {
            Ok(Action::Server(ServerAction::FileDeleteAck))
        } else if str_eq(s, "FileSyncEnd") {
            Ok(Action::Server(ServerAction::FileSyncEnd))
        } else if str_eq(s, "SettingSyncModify") {
            Ok(Action::Server(ServerAction::SettingSyncModify))
        } else if str_eq(s, "SettingSyncDelete") {
            Ok(Action::Server(ServerAction::SettingSyncDelete))
        } else if str_eq(s, "SettingSyncRename") {
            Ok(Action::Server(ServerAction::SettingSyncRename))
        } else if str_eq(s, "SettingSyncMtime") {
            Ok(Action::Server(ServerAction::SettingSyncMtime))
        } else if str_eq(s, "SettingSyncNeedUpload") {
            Ok(Action::Server(ServerAction::SettingSyncNeedUpload))
        } else if str_eq(s, "SettingSyncEnd") {
            Ok(Action::Server(ServerAction::SettingSyncEnd))
        } else if str_eq(s, "SettingModifyAck") {
            Ok(Action::Server(ServerAction::SettingModifyAck))
        } else if str_eq(s, "FolderSyncModify") {
            Ok(Action::Server(ServerAction::FolderSyncModify))
        } else if str_eq(s, "FolderSyncDelete") {
            Ok(Action::Server(ServerAction::FolderSyncDelete))
        } else if str_eq(s, "FolderSyncRename") {
            Ok(Action::Server(ServerAction::FolderSyncRename))
        } else if str_eq(s, "FolderSyncEnd") {
            Ok(Action::Server(ServerAction::FolderSyncEnd))
        } else {
            proof {
                assert forall|a: Action| action_name(a) != s@ by {
                    match a {
                        Action::Client(c) => {
                            match c {
                                ClientAction::Authorization => {},
                                ClientAction::ClientInfo => {},
                                ClientAction::NoteSync => {},
                                ClientAction::NoteModify => {},
                                ClientAction::NoteDelete => {},
                                ClientAction::NoteRename => {},
                                ClientAction::NoteCheck => {},
                                ClientAction::NoteRePush => {},
                                ClientAction::FileSync => {},
                                ClientAction::FileUploadCheck => {},
                                ClientAction::FileDelete => {},
                                ClientAction::FileChunkDownload => {},
                                ClientAction::FolderSync => {},
                                ClientAction::FolderModify => {},
                                ClientAction::FolderDelete => {},
                                ClientAction::FolderRename => {},
                                ClientAction::SettingSync => {},
                                ClientAction::SettingModify => {},
                                ClientAction::SettingDelete => {},
                            }
                        },
                        Action::Server(v) => {
                            match v {
                                ServerAction::NoteSyncEnd => {},
                                ServerAction::NoteSyncModify => {},
                                ServerAction::NoteSyncDelete => {},
                                ServerAction::NoteSyncRename => {},
                                ServerAction::NoteSyncMtime => {},
                                ServerAction::NoteSyncNeedPush => {},
                                ServerAction::NoteModifyAck => {},
                                ServerAction::NoteDeleteAck => {},
                                ServerAction::FileSyncUpdate => {},
                                ServerAction::FileSyncDelete => {},
                                ServerAction::FileSyncRename => {},
                                ServerAction::FileSyncMtime => {},
                                ServerAction::FileSyncChunkDownload => {},
                                ServerAction::FileUpload => {},
                                ServerAction::FileUploadAck => {},
                                ServerAction::FileDeleteAck => {},
                                ServerAction::FileSyncEnd => {},
                                ServerAction::SettingSyncModify => {},
                                ServerAction::SettingSyncDelete => {},
                                ServerAction::SettingSyncRename => {},
                                ServerAction::SettingSyncMtime => {},
                                ServerAction::SettingSyncNeedUpload => {},
                                ServerAction::SettingSyncEnd => {},
                                ServerAction::SettingModifyAck => {},
                                ServerAction::FolderSyncModify => {},
                                ServerAction::FolderSyncDelete => {},
                                ServerAction::FolderSyncRename => {},
                                ServerAction::FolderSyncEnd => {},
                            }
                        },
                    }
                }
            }
            let mut msg = String::from_str("Unknown action: ");
            msg.append(s);
            Err(msg)
        }
    }
}

} // verus!

verus! {

/// The action a wire name denotes, if any.
pub open spec fn parse_action_name(s: Seq<char>) -> Option<Action> {
    if s == "Authorization"@ {
        Some(Action::Client(ClientAction::Authorization))
    } else if s == "ClientInfo"@ {
        Some(Action::Client(ClientAction::ClientInfo))
    } else if s == "NoteSync"@ {
        Some(Action::Client(ClientAction::NoteSync))
    } else if s == "NoteModify"@ {
        Some(Action::Client(ClientAction::NoteModify))
    } else if s == "NoteDelete"@ {
        Some(Action::Client(ClientAction::NoteDelete))
    } else if s == "NoteRename"@ {
        Some(Action::Client(ClientAction::NoteRename))
    } else if s == "NoteCheck"@ {
        Some(Action::Client(ClientAction::NoteCheck))
    } else if s == "NoteRePush"@ {
        Some(Action::Client(ClientAction::NoteRePush))
    } else if s == "FileSync"@ {
        Some(Action::Client(ClientAction::FileSync))
    } else if s == "FileUploadCheck"@ {
        Some(Action::Client(ClientAction::FileUploadCheck))
    } else if s == "FileDelete"@ {
        Some(Action::Client(ClientAction::FileDelete))
    } else if s == "FileChunkDownload"@ {
        Some(Action::Client(ClientAction::FileChunkDownload))
    } else if s == "FolderSync"@ {
        Some(Action::Client(ClientAction::FolderSync))
    } else if s == "FolderModify"@ {
        Some(Action::Client(ClientAction::FolderModify))
    } else if s == "FolderDelete"@ {
        Some(Action::Client(ClientAction::FolderDelete))
    } else if s == "FolderRename"@ {
        Some(Action::Client(ClientAction::FolderRename))
    } else if s == "SettingSync"@ {
        Some(Action::Client(ClientAction::SettingSync))
    } else if s == "SettingModify"@ {
        Some(Action::Client(ClientAction::SettingModify))
    } else if s == "SettingDelete"@ {
        Some(Action::Client(ClientAction::SettingDelete))
    } else if s == "NoteSyncEnd"@ {
        Some(Action::Server(ServerAction::NoteSyncEnd))
    } else if s == "NoteSyncModify"@ {
        Some(Action::Server(ServerAction::NoteSyncModify))
    } else if s == "NoteSyncDelete"@ {
        Some(Action::Server(ServerAction::NoteSyncDelete))
    } else if s == "NoteSyncRename"@ {
        Some(Action::Server(ServerAction::NoteSyncRename))
    } else if s == "NoteSyncMtime"@ {
        Some(Action::Server(ServerAction::NoteSyncMtime))
    } else if s == "NoteSyncNeedPush"@ {
        Some(Action::Server(ServerAction::NoteSyncNeedPush))
    } else if s == "NoteModifyAck"@ {
        Some(Action::Server(ServerAction::NoteModifyAck))
    } else if s == "NoteDeleteAck"@ {
        Some(Action::Server(ServerAction::NoteDeleteAck))
    } else if s == "FileSyncUpdate"@ {
        Some(Action::Server(ServerAction::FileSyncUpdate))
    } else if s == "FileSyncDelete"@ {
        Some(Action::Server(ServerAction::FileSyncDelete))
    } else if s == "FileSyncRename"@ {
        Some(Action::Server(ServerAction::FileSyncRename))
    } else if s == "FileSyncMtime"@ {
        Some(Action::Server(ServerAction::FileSyncMtime))
    } else if s == "FileSyncChunkDownload"@ {
        Some(Action::Server(ServerAction::FileSyncChunkDownload))
    } else if s == "FileUpload"@ {
        Some(Action::Server(ServerAction::FileUpload))
    } else if s == "FileUploadAck"@ {
        Some(Action::Server(ServerAction::FileUploadAck))
    } else if s == "FileDeleteAck"@ {
        Some(Action::Server(ServerAction::FileDeleteAck))
    } else if s == "FileSyncEnd"@ {
        Some(Action::Server(ServerAction::FileSyncEnd))
    } else if s == "SettingSyncModify"@ {
        Some(Action::Server(ServerAction::SettingSyncModify))
    } else if s == "SettingSyncDelete"@ {
        Some(Action::Server(ServerAction::SettingSyncDelete))
    } else if s == "SettingSyncRename"@ {
        Some(Action::Server(ServerAction::SettingSyncRename))
    } else if s == "SettingSyncMtime"@ {
        Some(Action::Server(ServerAction::SettingSyncMtime))
    } else if s == "SettingSyncNeedUpload"@ {
        Some(Action::Server(ServerAction::SettingSyncNeedUpload))
    } else if s == "SettingSyncEnd"@ {
        Some(Action::Server(ServerAction::SettingSyncEnd))
    } else if s == "SettingModifyAck"@ {
        Some(Action::Server(ServerAction::SettingModifyAck))
    } else if s == "FolderSyncModify"@ {
        Some(Action::Server(ServerAction::FolderSyncModify))
    } else if s == "FolderSyncDelete"@ {
        Some(Action::Server(ServerAction::FolderSyncDelete))
    } else if s == "FolderSyncRename"@ {
        Some(Action::Server(ServerAction::FolderSyncRename))
    } else if s == "FolderSyncEnd"@ {
        Some(Action::Server(ServerAction::FolderSyncEnd))
    } else {
        None
    }
}

proof fn lemma_name_client_authorization()
    ensures
        parse_action_name("Authorization"@) == Some(Action::Client(ClientAction::Authorization)),
{
    broadcast use vstd::string::group_string_axioms;

    reveal_strlit("Authorization");
}

proof fn lemma_name_client_client_info()
    ensures
        parse_action_name("ClientInfo"@) == Some(Action::Client(ClientAction::ClientInfo)),
{
    broadcast use vstd::string::group_string_axioms;

    reveal_strlit("ClientInfo");
    reveal_strlit("Authorization");
    assert("ClientInfo"@.len() != "Authorization"@.len());
}

proof fn lemma_name_client_note_sync()
    ensures
        parse_action_name("NoteSync"@) == Some(Action::Client(ClientAction::NoteSync)),
{
    broadcast use vstd::string::group_string_axioms;

    reveal_strlit("NoteSync");
    reveal_strlit("Authorization");
    assert("NoteSync"@.len() != "Authorization"@.len());
    reveal_strlit("ClientInfo");
    assert("NoteSync"@.len() != "ClientInfo"@.len());
}

proof fn lemma_name_client_note_modify()
    ensures
        parse_action_name("NoteModify"@) == Some(Action::Client(ClientAction::NoteModify)),
{
    broadcast use vstd::string::group_string_axioms;

    reveal_strlit("NoteModify");
    reveal_strlit("Authorization");
    assert("NoteModify"@.len() != "Authorization"@.len());
    reveal_strlit("ClientInfo");
    assert("NoteModify"@[0] != "ClientInfo"@[0]);
    reveal_strlit("NoteSync");
    assert("NoteModify"@.len() != "NoteSync"@.len());
}

proof fn lemma_name_client_note_delete()
    ensures
        parse_action_name("NoteDelete"@) == Some(Action::Client(ClientAction::NoteDelete)),
{
    broadcast use vstd::string::group_string_axioms;

    reveal_strlit("NoteDelete");
    reveal_strlit("Authorization");
    assert("NoteDelete"@.len() != "Authorization"@.len());
    reveal_strlit("ClientInfo");
    assert("NoteDelete"@[0] != "ClientInfo"@[0]);
    reveal_strlit("NoteSync");
    assert("NoteDelete"@.len() != "NoteSync"@.len());
    reveal_strlit("NoteModify");
    assert("NoteDelete"@[4] != "NoteModify"@[4]);
}

proof fn lemma_name_client_note_rename()
    ensures
        parse_action_name("NoteRename"@) == Some(Action::Client(ClientAction::NoteRename)),
{
    broadcast use vstd::string::group_string_axioms;

    reveal_strlit("NoteRename");
    reveal_strlit("Authorization");
    assert("NoteRename"@.len() != "Authorization"@.len());
    reveal_strlit("ClientInfo");
    assert("NoteRename"@[0] != "ClientInfo"@[0]);
    reveal_strlit("NoteSync");
    assert("NoteRename"@.len() != "NoteSync"@.len());
    reveal_strlit("NoteModify");
    assert("NoteRename"@[4] != "NoteModify"@[4]);
    reveal_strlit("NoteDelete");
    assert("NoteRename"@[4] != "NoteDelete"@[4]);
}

proof fn lemma_name_client_note_check()
    ensures
        parse_action_name("NoteCheck"@) == Some(Action::Client(ClientAction::NoteCheck)),
{
    broadcast use vstd::string::group_string_axioms;

    reveal_strlit("NoteCheck");
    reveal_strlit("Authorization");
    assert("NoteCheck"@.len() != "Authorization"@.len());
    reveal_strlit("ClientInfo");
    assert("NoteCheck"@.len() != "ClientInfo"@.len());
    reveal_strlit("NoteSync");
    assert("NoteCheck"@.len() != "NoteSync"@.len());
    reveal_strlit("NoteModify");
    assert("NoteCheck"@.len() != "NoteModify"@.len());
    reveal_strlit("NoteDelete");
    assert("NoteCheck"@.len() != "NoteDelete"@.len());
    reveal_strlit("NoteRename");
    assert("NoteCheck"@.len() != "NoteRename"@.len());
}

proof fn lemma_name_client_note_re_push()
    ensures
        parse_action_name("NoteRePush"@) == Some(Action::Client(ClientAction::NoteRePush)),
{
    broadcast use vstd::string::group_string_axioms;

    reveal_strlit("NoteRePush");
    reveal_strlit("Authorization");
    assert("NoteRePush"@.len() != "Authorization"@.len());
    reveal_strlit("ClientInfo");
    assert("NoteRePush"@[0] != "ClientInfo"@[0]);
    reveal_strlit("NoteSync");
    assert("NoteRePush"@.len() != "NoteSync"@.len());
    reveal_strlit("NoteModify");
    assert("NoteRePush"@[4] != "NoteModify"@[4]);
    reveal_strlit("NoteDelete");
    assert("NoteRePush"@[4] != "NoteDelete"@[4]);
    reveal_strlit("NoteRename");
    assert("NoteRePush"@[6] != "NoteRename"@[6]);
    reveal_strlit("NoteCheck");
    assert("NoteRePush"@.len() != "NoteCheck"@.len());
}

proof fn lemma_name_client_file_sync()
    ensures
        parse_action_name("FileSync"@) == Some(Action::Client(ClientAction::FileSync)),
{
    broadcast use vstd::string::group_string_axioms;

    reveal_strlit("FileSync");
    reveal_strlit("Authorization");
    assert("FileSync"@.len() != "Authorization"@.len());
    reveal_strlit("ClientInfo");
    assert("FileSync"@.len() != "ClientInfo"@.len());
    reveal_strlit("NoteSync");
    assert("FileSync"@[0] != "NoteSync"@[0]);
    reveal_strlit("NoteModify");
    assert("FileSync"@.len() != "NoteModify"@.len());
    reveal_strlit("NoteDelete");
    assert("FileSync"@.len() != "NoteDelete"@.len());
    reveal_strlit("NoteRename");
    assert("FileSync"@.len() != "NoteRename"@.len());
    reveal_strlit("NoteCheck");
    assert("FileSync"@.len() != "NoteCheck"@.len());
    reveal_strlit("NoteRePush");
    assert("FileSync"@.len() != "NoteRePush"@.len());
}

proof fn lemma_name_client_file_upload_check()
    ensures
        parse_action_name("FileUploadCheck"@) == Some(Action::Client(ClientAction::FileUploadCheck)),
{
    broadcast use vstd::string::group_string_axioms;

    reveal_strlit("FileUploadCheck");
    reveal_strlit("Authorization");
    assert("FileUploadCheck"@.len() != "Authorization"@.len());
    reveal_strlit("ClientInfo");
    assert("FileUploadCheck"@.len() != "ClientInfo"@.len());
    reveal_strlit("NoteSync");
    assert("FileUploadCheck"@.len() != "NoteSync"@.len());
    reveal_strlit("NoteModify");
    assert("FileUploadCheck"@.len() != "NoteModify"@.len());
    reveal_strlit("NoteDelete");
    assert("FileUploadCheck"@.len() != "NoteDelete"@.len());
    reveal_strlit("NoteRename");
    assert("FileUploadCheck"@.len() != "NoteRename"@.len());
    reveal_strlit("NoteCheck");
    assert("FileUploadCheck"@.len() != "NoteCheck"@.len());
    reveal_strlit("NoteRePush");
    assert("FileUploadCheck"@.len() != "NoteRePush"@.len());
    reveal_strlit("FileSync");
    assert("FileUploadCheck"@.len() != "FileSync"@.len());
}

proof fn lemma_name_client_file_delete()
    ensures
        parse_action_name("FileDelete"@) == Some(Action::Client(ClientAction::FileDelete)),
{
    broadcast use vstd::string::group_string_axioms;

    reveal_strlit("FileDelete");
    reveal_strlit("Authorization");
    assert("FileDelete"@.len() != "Authorization"@.len());
    reveal_strlit("ClientInfo");
    assert("FileDelete"@[0] != "ClientInfo"@[0]);
    reveal_strlit("NoteSync");
    assert("FileDelete"@.len() != "NoteSync"@.len());
    reveal_strlit("NoteModify");
    assert("FileDelete"@[0] != "NoteModify"@[0]);
    reveal_strlit("NoteDelete");
    assert("FileDelete"@[0] != "NoteDelete"@[0]);
    reveal_strlit("NoteRename");
    assert("FileDelete"@[0] != "NoteRename"@[0]);
    reveal_strlit("NoteCheck");
    assert("FileDelete"@.len() != "NoteCheck"@.len());
    reveal_strlit("NoteRePush");
    assert("FileDelete"@[0] != "NoteRePush"@[0]);
    reveal_strlit("FileSync");
    assert("FileDelete"@.len() != "FileSync"@.len());
    reveal_strlit("FileUploadCheck");
    assert("FileDelete"@.len() != "FileUploadCheck"@.len());
}

proof fn lemma_name_client_file_chunk_download()
    ensures
        parse_action_name("FileChunkDownload"@) == Some(Action::Client(ClientAction::FileChunkDownload)),
{
    broadcast use vstd::string::group_string_axioms;

    reveal_strlit("FileChunkDownload");
    reveal_strlit("Authorization");
    assert("FileChunkDownload"@.len() != "Authorization"@.len());
    reveal_strlit("ClientInfo");
    assert("FileChunkDownload"@.len() != "ClientInfo"@.len());
    reveal_strlit("NoteSync");
    assert("FileChunkDownload"@.len() != "NoteSync"@.len());
    reveal_strlit("NoteModify");
    assert("FileChunkDownload"@.len() != "NoteModify"@.len());
    reveal_strlit("NoteDelete");
    assert("FileChunkDownload"@.len() != "NoteDelete"@.len());
    reveal_strlit("NoteRename");
    assert("FileChunkDownload"@.len() != "NoteRename"@.len());
    reveal_strlit("NoteCheck");
    assert("FileChunkDownload"@.len() != "NoteCheck"@.len());
    reveal_strlit("NoteRePush");
    assert("FileChunkDownload"@.len() != "NoteRePush"@.len());
    reveal_strlit("FileSync");
    assert("FileChunkDownload"@.len() != "FileSync"@.len());
    reveal_strlit("FileUploadCheck");
    assert("FileChunkDownload"@.len() != "FileUploadCheck"@.len());
    reveal_strlit("FileDelete");
    assert("FileChunkDownload"@.len() != "FileDelete"@.len());
}

proof fn lemma_name_client_folder_sync()
    ensures
        parse_action_name("FolderSync"@) == Some(Action::Client(ClientAction::FolderSync)),
{
    broadcast use vstd::string::group_string_axioms;

    reveal_strlit("FolderSync");
    reveal_strlit("Authorization");
    assert("FolderSync"@.len() != "Authorization"@.len());
    reveal_strlit("ClientInfo");
    assert("FolderSync"@[0] != "ClientInfo"@[0]);
    reveal_strlit("NoteSync");
    assert("FolderSync"@.len() != "NoteSync"@.len());
    reveal_strlit("NoteModify");
    assert("FolderSync"@[0] != "NoteModify"@[0]);
    reveal_strlit("NoteDelete");
    assert("FolderSync"@[0] != "NoteDelete"@[0]);
    reveal_strlit("NoteRename");
    assert("FolderSync"@[0] != "NoteRename"@[0]);
    reveal_strlit("NoteCheck");
    assert("FolderSync"@.len() != "NoteCheck"@.len());
    reveal_strlit("NoteRePush");
    assert("FolderSync"@[0] != "NoteRePush"@[0]);
    reveal_strlit("FileSync");
    assert("FolderSync"@.len() != "FileSync"@.len());
    reveal_strlit("FileUploadCheck");
    assert("FolderSync"@.len() != "FileUploadCheck"@.len());
    reveal_strlit("FileDelete");
    assert("FolderSync"@[1] != "FileDelete"@[1]);
    reveal_strlit("FileChunkDownload");
    assert("FolderSync"@.len() != "FileChunkDownload"@.len());
}

proof fn lemma_name_client_folder_modify()
    ensures
        parse_action_name("FolderModify"@) == Some(Action::Client(ClientAction::FolderModify)),
{
    broadcast use vstd::string::group_string_axioms;

    reveal_strlit("FolderModify");
    reveal_strlit("Authorization");
    assert("FolderModify"@.len() != "Authorization"@.len());
    reveal_strlit("ClientInfo");
    assert("FolderModify"@.len() != "ClientInfo"@.len());
    reveal_strlit("NoteSync");
    assert("FolderModify"@.len() != "NoteSync"@.len());
    reveal_strlit("NoteModify");
    assert("FolderModify"@.len() != "NoteModify"@.len());
    reveal_strlit("NoteDelete");
    assert("FolderModify"@.len() != "NoteDelete"@.len());
    reveal_strlit("NoteRename");
    assert("FolderModify"@.len() != "NoteRename"@.len());
    reveal_strlit("NoteCheck");
    assert("FolderModify"@.len() != "NoteCheck"@.len());
    reveal_strlit("NoteRePush");
    assert("FolderModify"@.len() != "NoteRePush"@.len());
    reveal_strlit("FileSync");
    assert("FolderModify"@.len() != "FileSync"@.len());
    reveal_strlit("FileUploadCheck");
    assert("FolderModify"@.len() != "FileUploadCheck"@.len());
    reveal_strlit("FileDelete");
    assert("FolderModify"@.len() != "FileDelete"@.len());
    reveal_strlit("FileChunkDownload");
    assert("FolderModify"@.len() != "FileChunkDownload"@.len());
    reveal_strlit("FolderSync");
    assert("FolderModify"@.len() != "FolderSync"@.len());
}

proof fn lemma_name_client_folder_delete()
    ensures
        parse_action_name("FolderDelete"@) == Some(Action::Client(ClientAction::FolderDelete)),
{
    broadcast use vstd::string::group_string_axioms;

    reveal_strlit("FolderDelete");
    reveal_strlit("Authorization");
    assert("FolderDelete"@.len() != "Authorization"@.len());
    reveal_strlit("ClientInfo");
    assert("FolderDelete"@.len() != "ClientInfo"@.len());
    reveal_strlit("NoteSync");
    assert("FolderDelete"@.len() != "NoteSync"@.len());
    reveal_strlit("NoteModify");
    assert("FolderDelete"@.len() != "NoteModify"@.len());
    reveal_strlit("NoteDelete");
    assert("FolderDelete"@.len() != "NoteDelete"@.len());
    reveal_strlit("NoteRename");
    assert("FolderDelete"@.len() != "NoteRename"@.len());
    reveal_strlit("NoteCheck");
    assert("FolderDelete"@.len() != "NoteCheck"@.len());
    reveal_strlit("NoteRePush");
    assert("FolderDelete"@.len() != "NoteRePush"@.len());
    reveal_strlit("FileSync");
    assert("FolderDelete"@.len() != "FileSync"@.len());
    reveal_strlit("FileUploadCheck");
    assert("FolderDelete"@.len() != "FileUploadCheck"@.len());
    reveal_strlit("FileDelete");
    assert("FolderDelete"@.len() != "FileDelete"@.len());
    reveal_strlit("FileChunkDownload");
    assert("FolderDelete"@.len() != "FileChunkDownload"@.len());
    reveal_strlit("FolderSync");
    assert("FolderDelete"@.len() != "FolderSync"@.len());
    reveal_strlit("FolderModify");
    assert("FolderDelete"@[6] != "FolderModify"@[6]);
}

proof fn lemma_name_client_folder_rename()
    ensures
        parse_action_name("FolderRename"@) == Some(Action::Client(ClientAction::FolderRename)),
{
    broadcast use vstd::string::group_string_axioms;

    reveal_strlit("FolderRename");
    reveal_strlit("Authorization");
    assert("FolderRename"@.len() != "Authorization"@.len());
    reveal_strlit("ClientInfo");
    assert("FolderRename"@.len() != "ClientInfo"@.len());
    reveal_strlit("NoteSync");
    assert("FolderRename"@.len() != "NoteSync"@.len());
    reveal_strlit("NoteModify");
    assert("FolderRename"@.len() != "NoteModify"@.len());
    reveal_strlit("NoteDelete");
    assert("FolderRename"@.len() != "NoteDelete"@.len());
    reveal_strlit("NoteRename");
    assert("FolderRename"@.len() != "NoteRename"@.len());
    reveal_strlit("NoteCheck");
    assert("FolderRename"@.len() != "NoteCheck"@.len());
    reveal_strlit("NoteRePush");
    assert("FolderRename"@.len() != "NoteRePush"@.len());
    reveal_strlit("FileSync");
    assert("FolderRename"@.len() != "FileSync"@.len());
    reveal_strlit("FileUploadCheck");
    assert("FolderRename"@.len() != "FileUploadCheck"@.len());
    reveal_strlit("FileDelete");
    assert("FolderRename"@.len() != "FileDelete"@.len());
    reveal_strlit("FileChunkDownload");
    assert("FolderRename"@.len() != "FileChunkDownload"@.len());
    reveal_strlit("FolderSync");
    assert("FolderRename"@.len() != "FolderSync"@.len());
    reveal_strlit("FolderModify");
    assert("FolderRename"@[6] != "FolderModify"@[6]);
    reveal_strlit("FolderDelete");
    assert("FolderRename"@[6] != "FolderDelete"@[6]);
}

proof fn lemma_name_client_setting_sync()
    ensures
        parse_action_name("SettingSync"@) == Some(Action::Client(ClientAction::SettingSync)),
{
    broadcast use vstd::string::group_string_axioms;

    reveal_strlit("SettingSync");
    reveal_strlit("Authorization");
    assert("SettingSync"@.len() != "Authorization"@.len());
    reveal_strlit("ClientInfo");
    assert("SettingSync"@.len() != "ClientInfo"@.len());
    reveal_strlit("NoteSync");
    assert("SettingSync"@.len() != "NoteSync"@.len());
    reveal_strlit("NoteModify");
    assert("SettingSync"@.len() != "NoteModify"@.len());
    reveal_strlit("NoteDelete");
    assert("SettingSync"@.len() != "NoteDelete"@.len());
    reveal_strlit("NoteRename");
    assert("SettingSync"@.len() != "NoteRename"@.len());
    reveal_strlit("NoteCheck");
    assert("SettingSync"@.len() != "NoteCheck"@.len());
    reveal_strlit("NoteRePush");
    assert("SettingSync"@.len() != "NoteRePush"@.len());
    reveal_strlit("FileSync");
    assert("SettingSync"@.len() != "FileSync"@.len());
    reveal_strlit("FileUploadCheck");
    assert("SettingSync"@.len() != "FileUploadCheck"@.len());
    reveal_strlit("FileDelete");
    assert("SettingSync"@.len() != "FileDelete"@.len());
    reveal_strlit("FileChunkDownload");
    assert("SettingSync"@.len() != "FileChunkDownload"@.len());
    reveal_strlit("FolderSync");
    assert("SettingSync"@.len() != "FolderSync"@.len());
    reveal_strlit("FolderModify");
    assert("SettingSync"@.len() != "FolderModify"@.len());
    reveal_strlit("FolderDelete");
    assert("SettingSync"@.len() != "FolderDelete"@.len());
    reveal_strlit("FolderRename");
    assert("SettingSync"@.len() != "FolderRename"@.len());
}

proof fn lemma_name_client_setting_modify()
    ensures
        parse_action_name("SettingModify"@) == Some(Action::Client(ClientAction::SettingModify)),
{
    broadcast use vstd::string::group_string_axioms;

    reveal_strlit("SettingModify");
    reveal_strlit("Authorization");
    assert("SettingModify"@[0] != "Authorization"@[0]);
    reveal_strlit("ClientInfo");
    assert("SettingModify"@.len() != "ClientInfo"@.len());
    reveal_strlit("NoteSync");
    assert("SettingModify"@.len() != "NoteSync"@.len());
    reveal_strlit("NoteModify");
    assert("SettingModify"@.len() != "NoteModify"@.len());
    reveal_strlit("NoteDelete");
    assert("SettingModify"@.len() != "NoteDelete"@.len());
    reveal_strlit("NoteRename");
    assert("SettingModify"@.len() != "NoteRename"@.len());
    reveal_strlit("NoteCheck");
    assert("SettingModify"@.len() != "NoteCheck"@.len());
    reveal_strlit("NoteRePush");
    assert("SettingModify"@.len() != "NoteRePush"@.len());
    reveal_strlit("FileSync");
    assert("SettingModify"@.len() != "FileSync"@.len());
    reveal_strlit("FileUploadCheck");
    assert("SettingModify"@.len() != "FileUploadCheck"@.len());
    reveal_strlit("FileDelete");
    assert("SettingModify"@.len() != "FileDelete"@.len());
    reveal_strlit("FileChunkDownload");
    assert("SettingModify"@.len() != "FileChunkDownload"@.len());
    reveal_strlit("FolderSync");
    assert("SettingModify"@.len() != "FolderSync"@.len());
    reveal_strlit("FolderModify");
    assert("SettingModify"@.len() != "FolderModify"@.len());
    reveal_strlit("FolderDelete");
    assert("SettingModify"@.len() != "FolderDelete"@.len());
    reveal_strlit("FolderRename");
    assert("SettingModify"@.len() != "FolderRename"@.len());
    reveal_strlit("SettingSync");
    assert("SettingModify"@.len() != "SettingSync"@.len());
}

proof fn lemma_name_client_setting_delete()
    ensures
        parse_action_name("SettingDelete"@) == Some(Action::Client(ClientAction::SettingDelete)),
{
    broadcast use vstd::string::group_string_axioms;

    reveal_strlit("SettingDelete");
    reveal_strlit("Authorization");
    assert("SettingDelete"@[0] != "Authorization"@[0]);
    reveal_strlit("ClientInfo");
    assert("SettingDelete"@.len() != "ClientInfo"@.len());
    reveal_strlit("NoteSync");
    assert("SettingDelete"@.len() != "NoteSync"@.len());
    reveal_strlit("NoteModify");
    assert("SettingDelete"@.len() != "NoteModify"@.len());
    reveal_strlit("NoteDelete");
    assert("SettingDelete"@.len() != "NoteDelete"@.len());
    reveal_strlit("NoteRename");
    assert("SettingDelete"@.len() != "NoteRename"@.len());
    reveal_strlit("NoteCheck");
    assert("SettingDelete"@.len() != "NoteCheck"@.len());
    reveal_strlit("NoteRePush");
    assert("SettingDelete"@.len() != "NoteRePush"@.len());
    reveal_strlit("FileSync");
    assert("SettingDelete"@.len() != "FileSync"@.len());
    reveal_strlit("FileUploadCheck");
    assert("SettingDelete"@.len() != "FileUploadCheck"@.len());
    reveal_strlit("FileDelete");
    assert("SettingDelete"@.len() != "FileDelete"@.len());
    reveal_strlit("FileChunkDownload");
    assert("SettingDelete"@.len() != "FileChunkDownload"@.len());
    reveal_strlit("FolderSync");
    assert("SettingDelete"@.len() != "FolderSync"@.len());
    reveal_strlit("FolderModify");
    assert("SettingDelete"@.len() != "FolderModify"@.len());
    reveal_strlit("FolderDelete");
    assert("SettingDelete"@.len() != "FolderDelete"@.len());
    reveal_strlit("FolderRename");
    assert("SettingDelete"@.len() != "FolderRename"@.len());
    reveal_strlit("SettingSync");
    assert("SettingDelete"@.len() != "SettingSync"@.len());
    reveal_strlit("SettingModify");
    assert("SettingDelete"@[7] != "SettingModify"@[7]);
}

proof fn lemma_name_server_note_sync_end()
    ensures
        parse_action_name("NoteSyncEnd"@) == Some(Action::Server(ServerAction::NoteSyncEnd)),
{
    broadcast use vstd::string::group_string_axioms;

    reveal_strlit("NoteSyncEnd");
    reveal_strlit("Authorization");
    assert("NoteSyncEnd"@.len() != "Authorization"@.len());
    reveal_strlit("ClientInfo");
    assert("NoteSyncEnd"@.len() != "ClientInfo"@.len());
    reveal_strlit("NoteSync");
    assert("NoteSyncEnd"@.len() != "NoteSync"@.len());
    reveal_strlit("NoteModify");
    assert("NoteSyncEnd"@.len() != "NoteModify"@.len());
    reveal_strlit("NoteDelete");
    assert("NoteSyncEnd"@.len() != "NoteDelete"@.len());
    reveal_strlit("NoteRename");
    assert("NoteSyncEnd"@.len() != "NoteRename"@.len());
    reveal_strlit("NoteCheck");
    assert("NoteSyncEnd"@.len() != "NoteCheck"@.len());
    reveal_strlit("NoteRePush");
    assert("NoteSyncEnd"@.len() != "NoteRePush"@.len());
    reveal_strlit("FileSync");
    assert("NoteSyncEnd"@.len() != "FileSync"@.len());
    reveal_strlit("FileUploadCheck");
    assert("NoteSyncEnd"@.len() != "FileUploadCheck"@.len());
    reveal_strlit("FileDelete");
    assert("NoteSyncEnd"@.len() != "FileDelete"@.len());
    reveal_strlit("FileChunkDownload");
    assert("NoteSyncEnd"@.len() != "FileChunkDownload"@.len());
    reveal_strlit("FolderSync");
    assert("NoteSyncEnd"@.len() != "FolderSync"@.len());
    reveal_strlit("FolderModify");
    assert("NoteSyncEnd"@.len() != "FolderModify"@.len());
    reveal_strlit("FolderDelete");
    assert("NoteSyncEnd"@.len() != "FolderDelete"@.len());
    reveal_strlit("FolderRename");
    assert("NoteSyncEnd"@.len() != "FolderRename"@.len());
    reveal_strlit("SettingSync");
    assert("NoteSyncEnd"@[0] != "SettingSync"@[0]);
    reveal_strlit("SettingModify");
    assert("NoteSyncEnd"@.len() != "SettingModify"@.len());
    reveal_strlit("SettingDelete");
    assert("NoteSyncEnd"@.len() != "SettingDelete"@.len());
}

proof fn lemma_name_server_note_sync_modify()
    ensures
        parse_action_name("NoteSyncModify"@) == Some(Action::Server(ServerAction::NoteSyncModify)),
{
    broadcast use vstd::string::group_string_axioms;

    reveal_strlit("NoteSyncModify");
    reveal_strlit("Authorization");
    assert("NoteSyncModify"@.len() != "Authorization"@.len());
    reveal_strlit("ClientInfo");
    assert("NoteSyncModify"@.len() != "ClientInfo"@.len());
    reveal_strlit("NoteSync");
    assert("NoteSyncModify"@.len() != "NoteSync"@.len());
    reveal_strlit("NoteModify");
    assert("NoteSyncModify"@.len() != "NoteModify"@.len());
    reveal_strlit("NoteDelete");
    assert("NoteSyncModify"@.len() != "NoteDelete"@.len());
    reveal_strlit("NoteRename");
    assert("NoteSyncModify"@.len() != "NoteRename"@.len());
    reveal_strlit("NoteCheck");
    assert("NoteSyncModify"@.len() != "NoteCheck"@.len());
    reveal_strlit("NoteRePush");
    assert("NoteSyncModify"@.len() != "NoteRePush"@.len());
    reveal_strlit("FileSync");
    assert("NoteSyncModify"@.len() != "FileSync"@.len());
    reveal_strlit("FileUploadCheck");
    assert("NoteSyncModify"@.len() != "FileUploadCheck"@.len());
    reveal_strlit("FileDelete");
    assert("NoteSyncModify"@.len() != "FileDelete"@.len());
    reveal_strlit("FileChunkDownload");
    assert("NoteSyncModify"@.len() != "FileChunkDownload"@.len());
    reveal_strlit("FolderSync");
    assert("NoteSyncModify"@.len() != "FolderSync"@.len());
    reveal_strlit("FolderModify");
    assert("NoteSyncModify"@.len() != "FolderModify"@.len());
    reveal_strlit("FolderDelete");
    assert("NoteSyncModify"@.len() != "FolderDelete"@.len());
    reveal_strlit("FolderRename");
    assert("NoteSyncModify"@.len() != "FolderRename"@.len());
    reveal_strlit("SettingSync");
    assert("NoteSyncModify"@.len() != "SettingSync"@.len());
    reveal_strlit("SettingModify");
    assert("NoteSyncModify"@.len() != "SettingModify"@.len());
    reveal_strlit("SettingDelete");
    assert("NoteSyncModify"@.len() != "SettingDelete"@.len());
    reveal_strlit("NoteSyncEnd");
    assert("NoteSyncModify"@.len() != "NoteSyncEnd"@.len());
}

proof fn lemma_name_server_note_sync_delete()
    ensures
        parse_action_name("NoteSyncDelete"@) == Some(Action::Server(ServerAction::NoteSyncDelete)),
{
    broadcast use vstd::string::group_string_axioms;

    reveal_strlit("NoteSyncDelete");
    reveal_strlit("Authorization");
    assert("NoteSyncDelete"@.len() != "Authorization"@.len());
    reveal_strlit("ClientInfo");
    assert("NoteSyncDelete"@.len() != "ClientInfo"@.len());
    reveal_strlit("NoteSync");
    assert("NoteSyncDelete"@.len() != "NoteSync"@.len());
    reveal_strlit("NoteModify");
    assert("NoteSyncDelete"@.len() != "NoteModify"@.len());
    reveal_strlit("NoteDelete");
    assert("NoteSyncDelete"@.len() != "NoteDelete"@.len());
    reveal_strlit("NoteRename");
    assert("NoteSyncDelete"@.len() != "NoteRename"@.len());
    reveal_strlit("NoteCheck");
    assert("NoteSyncDelete"@.len() != "NoteCheck"@.len());
    reveal_strlit("NoteRePush");
    assert("NoteSyncDelete"@.len() != "NoteRePush"@.len());
    reveal_strlit("FileSync");
    assert("NoteSyncDelete"@.len() != "FileSync"@.len());
    reveal_strlit("FileUploadCheck");
    assert("NoteSyncDelete"@.len() != "FileUploadCheck"@.len());
    reveal_strlit("FileDelete");
    assert("NoteSyncDelete"@.len() != "FileDelete"@.len());
    reveal_strlit("FileChunkDownload");
    assert("NoteSyncDelete"@.len() != "FileChunkDownload"@.len());
    reveal_strlit("FolderSync");
    assert("NoteSyncDelete"@.len() != "FolderSync"@.len());
    reveal_strlit("FolderModify");
    assert("NoteSyncDelete"@.len() != "FolderModify"@.len());
    reveal_strlit("FolderDelete");
    assert("NoteSyncDelete"@.len() != "FolderDelete"@.len());
    reveal_strlit("FolderRename");
    assert("NoteSyncDelete"@.len() != "FolderRename"@.len());
    reveal_strlit("SettingSync");
    assert("NoteSyncDelete"@.len() != "SettingSync"@.len());
    reveal_strlit("SettingModify");
    assert("NoteSyncDelete"@.len() != "SettingModify"@.len());
    reveal_strlit("SettingDelete");
    assert("NoteSyncDelete"@.len() != "SettingDelete"@.len());
    reveal_strlit("NoteSyncEnd");
    assert("NoteSyncDelete"@.len() != "NoteSyncEnd"@.len());
    reveal_strlit("NoteSyncModify");
    assert("NoteSyncDelete"@[8] != "NoteSyncModify"@[8]);
}

proof fn lemma_name_server_note_sync_rename()
    ensures
        parse_action_name("NoteSyncRename"@) == Some(Action::Server(ServerAction::NoteSyncRename)),
{
    broadcast use vstd::string::group_string_axioms;

    reveal_strlit("NoteSyncRename");
    reveal_strlit("Authorization");
    assert("NoteSyncRename"@.len() != "Authorization"@.len());
    reveal_strlit("ClientInfo");
    assert("NoteSyncRename"@.len() != "ClientInfo"@.len());
    reveal_strlit("NoteSync");
    assert("NoteSyncRename"@.len() != "NoteSync"@.len());
    reveal_strlit("NoteModify");
    assert("NoteSyncRename"@.len() != "NoteModify"@.len());
    reveal_strlit("NoteDelete");
    assert("NoteSyncRename"@.len() != "NoteDelete"@.len());
    reveal_strlit("NoteRename");
    assert("NoteSyncRename"@.len() != "NoteRename"@.len());
    reveal_strlit("NoteCheck");
    assert("NoteSyncRename"@.len() != "NoteCheck"@.len());
    reveal_strlit("NoteRePush");
    assert("NoteSyncRename"@.len() != "NoteRePush"@.len());
    reveal_strlit("FileSync");
    assert("NoteSyncRename"@.len() != "FileSync"@.len());
    reveal_strlit("FileUploadCheck");
    assert("NoteSyncRename"@.len() != "FileUploadCheck"@.len());
    reveal_strlit("FileDelete");
    assert("NoteSyncRename"@.len() != "FileDelete"@.len());
    reveal_strlit("FileChunkDownload");
    assert("NoteSyncRename"@.len() != "FileChunkDownload"@.len());
    reveal_strlit("FolderSync");
    assert("NoteSyncRename"@.len() != "FolderSync"@.len());
    reveal_strlit("FolderModify");
    assert("NoteSyncRename"@.len() != "FolderModify"@.len());
    reveal_strlit("FolderDelete");
    assert("NoteSyncRename"@.len() != "FolderDelete"@.len());
    reveal_strlit("FolderRename");
    assert("NoteSyncRename"@.len() != "FolderRename"@.len());
    reveal_strlit("SettingSync");
    assert("NoteSyncRename"@.len() != "SettingSync"@.len());
    reveal_strlit("SettingModify");
    assert("NoteSyncRename"@.len() != "SettingModify"@.len());
    reveal_strlit("SettingDelete");
    assert("NoteSyncRename"@.len() != "SettingDelete"@.len());
    reveal_strlit("NoteSyncEnd");
    assert("NoteSyncRename"@.len() != "NoteSyncEnd"@.len());
    reveal_strlit("NoteSyncModify");
    assert("NoteSyncRename"@[8] != "NoteSyncModify"@[8]);
    reveal_strlit("NoteSyncDelete");
    assert("NoteSyncRename"@[8] != "NoteSyncDelete"@[8]);
}

proof fn lemma_name_server_note_sync_mtime()
    ensures
        parse_action_name("NoteSyncMtime"@) == Some(Action::Server(ServerAction::NoteSyncMtime)),
{
    broadcast use vstd::string::group_string_axioms;

    reveal_strlit("NoteSyncMtime");
    reveal_strlit("Authorization");
    assert("NoteSyncMtime"@[0] != "Authorization"@[0]);
    reveal_strlit("ClientInfo");
    assert("NoteSyncMtime"@.len() != "ClientInfo"@.len());
    reveal_strlit("NoteSync");
    assert("NoteSyncMtime"@.len() != "NoteSync"@.len());
    reveal_strlit("NoteModify");
    assert("NoteSyncMtime"@.len() != "NoteModify"@.len());
    reveal_strlit("NoteDelete");
    assert("NoteSyncMtime"@.len() != "NoteDelete"@.len());
    reveal_strlit("NoteRename");
    assert("NoteSyncMtime"@.len() != "NoteRename"@.len());
    reveal_strlit("NoteCheck");
    assert("NoteSyncMtime"@.len() != "NoteCheck"@.len());
    reveal_strlit("NoteRePush");
    assert("NoteSyncMtime"@.len() != "NoteRePush"@.len());
    reveal_strlit("FileSync");
    assert("NoteSyncMtime"@.len() != "FileSync"@.len());
    reveal_strlit("FileUploadCheck");
    assert("NoteSyncMtime"@.len() != "FileUploadCheck"@.len());
    reveal_strlit("FileDelete");
    assert("NoteSyncMtime"@.len() != "FileDelete"@.len());
    reveal_strlit("FileChunkDownload");
    assert("NoteSyncMtime"@.len() != "FileChunkDownload"@.len());
    reveal_strlit("FolderSync");
    assert("NoteSyncMtime"@.len() != "FolderSync"@.len());
    reveal_strlit("FolderModify");
    assert("NoteSyncMtime"@.len() != "FolderModify"@.len());
    reveal_strlit("FolderDelete");
    assert("NoteSyncMtime"@.len() != "FolderDelete"@.len());
    reveal_strlit("FolderRename");
    assert("NoteSyncMtime"@.len() != "FolderRename"@.len());
    reveal_strlit("SettingSync");
    assert("NoteSyncMtime"@.len() != "SettingSync"@.len());
    reveal_strlit("SettingModify");
    assert("NoteSyncMtime"@[0] != "SettingModify"@[0]);
    reveal_strlit("SettingDelete");
    assert("NoteSyncMtime"@[0] != "SettingDelete"@[0]);
    reveal_strlit("NoteSyncEnd");
    assert("NoteSyncMtime"@.len() != "NoteSyncEnd"@.len());
    reveal_strlit("NoteSyncModify");
    assert("NoteSyncMtime"@.len() != "NoteSyncModify"@.len());
    reveal_strlit("NoteSyncDelete");
    assert("NoteSyncMtime"@.len() != "NoteSyncDelete"@.len());
    reveal_strlit("NoteSyncRename");
    assert("NoteSyncMtime"@.len() != "NoteSyncRename"@.len());
}

proof fn lemma_name_server_note_sync_need_push()
    ensures
        parse_action_name("NoteSyncNeedPush"@) == Some(Action::Server(ServerAction::NoteSyncNeedPush)),
{
    broadcast use vstd::string::group_string_axioms;

    reveal_strlit("NoteSyncNeedPush");
    reveal_strlit("Authorization");
    assert("NoteSyncNeedPush"@.len() != "Authorization"@.len());
    reveal_strlit("ClientInfo");
    assert("NoteSyncNeedPush"@.len() != "ClientInfo"@.len());
    reveal_strlit("NoteSync");
    assert("NoteSyncNeedPush"@.len() != "NoteSync"@.len());
    reveal_strlit("NoteModify");
    assert("NoteSyncNeedPush"@.len() != "NoteModify"@.len());
    reveal_strlit("NoteDelete");
    assert("NoteSyncNeedPush"@.len() != "NoteDelete"@.len());
    reveal_strlit("NoteRename");
    assert("NoteSyncNeedPush"@.len() != "NoteRename"@.len());
    reveal_strlit("NoteCheck");
    assert("NoteSyncNeedPush"@.len() != "NoteCheck"@.len());
    reveal_strlit("NoteRePush");
    assert("NoteSyncNeedPush"@.len() != "NoteRePush"@.len());
    reveal_strlit("FileSync");
    assert("NoteSyncNeedPush"@.len() != "FileSync"@.len());
    reveal_strlit("FileUploadCheck");
    assert("NoteSyncNeedPush"@.len() != "FileUploadCheck"@.len());
    reveal_strlit("FileDelete");
    assert("NoteSyncNeedPush"@.len() != "FileDelete"@.len());
    reveal_strlit("FileChunkDownload");
    assert("NoteSyncNeedPush"@.len() != "FileChunkDownload"@.len());
    reveal_strlit("FolderSync");
    assert("NoteSyncNeedPush"@.len() != "FolderSync"@.len());
    reveal_strlit("FolderModify");
    assert("NoteSyncNeedPush"@.len() != "FolderModify"@.len());
    reveal_strlit("FolderDelete");
    assert("NoteSyncNeedPush"@.len() != "FolderDelete"@.len());
    reveal_strlit("FolderRename");
    assert("NoteSyncNeedPush"@.len() != "FolderRename"@.len());
    reveal_strlit("SettingSync");
    assert("NoteSyncNeedPush"@.len() != "SettingSync"@.len());
    reveal_strlit("SettingModify");
    assert("NoteSyncNeedPush"@.len() != "SettingModify"@.len());
    reveal_strlit("SettingDelete");
    assert("NoteSyncNeedPush"@.len() != "SettingDelete"@.len());
    reveal_strlit("NoteSyncEnd");
    assert("NoteSyncNeedPush"@.len() != "NoteSyncEnd"@.len());
    reveal_strlit("NoteSyncModify");
    assert("NoteSyncNeedPush"@.len() != "NoteSyncModify"@.len());
    reveal_strlit("NoteSyncDelete");
    assert("NoteSyncNeedPush"@.len() != "NoteSyncDelete"@.len());
    reveal_strlit("NoteSyncRename");
    assert("NoteSyncNeedPush"@.len() != "NoteSyncRename"@.len());
    reveal_strlit("NoteSyncMtime");
    assert("NoteSyncNeedPush"@.len() != "NoteSyncMtime"@.len());
}

proof fn lemma_name_server_note_modify_ack()
    ensures
        parse_action_name("NoteModifyAck"@) == Some(Action::Server(ServerAction::NoteModifyAck)),
{
    broadcast use vstd::string::group_string_axioms;

    reveal_strlit("NoteModifyAck");
    reveal_strlit("Authorization");
    assert("NoteModifyAck"@[0] != "Authorization"@[0]);
    reveal_strlit("ClientInfo");
    assert("NoteModifyAck"@.len() != "ClientInfo"@.len());
    reveal_strlit("NoteSync");
    assert("NoteModifyAck"@.len() != "NoteSync"@.len());
    reveal_strlit("NoteModify");
    assert("NoteModifyAck"@.len() != "NoteModify"@.len());
    reveal_strlit("NoteDelete");
    assert("NoteModifyAck"@.len() != "NoteDelete"@.len());
    reveal_strlit("NoteRename");
    assert("NoteModifyAck"@.len() != "NoteRename"@.len());
    reveal_strlit("NoteCheck");
    assert("NoteModifyAck"@.len() != "NoteCheck"@.len());
    reveal_strlit("NoteRePush");
    assert("NoteModifyAck"@.len() != "NoteRePush"@.len());
    reveal_strlit("FileSync");
    assert("NoteModifyAck"@.len() != "FileSync"@.len());
    reveal_strlit("FileUploadCheck");
    assert("NoteModifyAck"@.len() != "FileUploadCheck"@.len());
    reveal_strlit("FileDelete");
    assert("NoteModifyAck"@.len() != "FileDelete"@.len());
    reveal_strlit("FileChunkDownload");
    assert("NoteModifyAck"@.len() != "FileChunkDownload"@.len());
    reveal_strlit("FolderSync");
    assert("NoteModifyAck"@.len() != "FolderSync"@.len());
    reveal_strlit("FolderModify");
    assert("NoteModifyAck"@.len() != "FolderModify"@.len());
    reveal_strlit("FolderDelete");
    assert("NoteModifyAck"@.len() != "FolderDelete"@.len());
    reveal_strlit("FolderRename");
    assert("NoteModifyAck"@.len() != "FolderRename"@.len());
    reveal_strlit("SettingSync");
    assert("NoteModifyAck"@.len() != "SettingSync"@.len());
    reveal_strlit("SettingModify");
    assert("NoteModifyAck"@[0] != "SettingModify"@[0]);
    reveal_strlit("SettingDelete");
    assert("NoteModifyAck"@[0] != "SettingDelete"@[0]);
    reveal_strlit("NoteSyncEnd");
    assert("NoteModifyAck"@.len() != "NoteSyncEnd"@.len());
    reveal_strlit("NoteSyncModify");
    assert("NoteModifyAck"@.len() != "NoteSyncModify"@.len());
    reveal_strlit("NoteSyncDelete");
    assert("NoteModifyAck"@.len() != "NoteSyncDelete"@.len());
    reveal_strlit("NoteSyncRename");
    assert("NoteModifyAck"@.len() != "NoteSyncRename"@.len());
    reveal_strlit("NoteSyncMtime");
    assert("NoteModifyAck"@[4] != "NoteSyncMtime"@[4]);
    reveal_strlit("NoteSyncNeedPush");
    assert("NoteModifyAck"@.len() != "NoteSyncNeedPush"@.len());
}

proof fn lemma_name_server_note_delete_ack()
    ensures
        parse_action_name("NoteDeleteAck"@) == Some(Action::Server(ServerAction::NoteDeleteAck)),
{
    broadcast use vstd::string::group_string_axioms;

    reveal_strlit("NoteDeleteAck");
    reveal_strlit("Authorization");
    assert("NoteDeleteAck"@[0] != "Authorization"@[0]);
    reveal_strlit("ClientInfo");
    assert("NoteDeleteAck"@.len() != "ClientInfo"@.len());
    reveal_strlit("NoteSync");
    assert("NoteDeleteAck"@.len() != "NoteSync"@.len());
    reveal_strlit("NoteModify");
    assert("NoteDeleteAck"@.len() != "NoteModify"@.len());
    reveal_strlit("NoteDelete");
    assert("NoteDeleteAck"@.len() != "NoteDelete"@.len());
    reveal_strlit("NoteRename");
    assert("NoteDeleteAck"@.len() != "NoteRename"@.len());
    reveal_strlit("NoteCheck");
    assert("NoteDeleteAck"@.len() != "NoteCheck"@.len());
    reveal_strlit("NoteRePush");
    assert("NoteDeleteAck"@.len() != "NoteRePush"@.len());
    reveal_strlit("FileSync");
    assert("NoteDeleteAck"@.len() != "FileSync"@.len());
    reveal_strlit("FileUploadCheck");
    assert("NoteDeleteAck"@.len() != "FileUploadCheck"@.len());
    reveal_strlit("FileDelete");
    assert("NoteDeleteAck"@.len() != "FileDelete"@.len());
    reveal_strlit("FileChunkDownload");
    assert("NoteDeleteAck"@.len() != "FileChunkDownload"@.len());
    reveal_strlit("FolderSync");
    assert("NoteDeleteAck"@.len() != "FolderSync"@.len());
    reveal_strlit("FolderModify");
    assert("NoteDeleteAck"@.len() != "FolderModify"@.len());
    reveal_strlit("FolderDelete");
    assert("NoteDeleteAck"@.len() != "FolderDelete"@.len());
    reveal_strlit("FolderRename");
    assert("NoteDeleteAck"@.len() != "FolderRename"@.len());
    reveal_strlit("SettingSync");
    assert("NoteDeleteAck"@.len() != "SettingSync"@.len());
    reveal_strlit("SettingModify");
    assert("NoteDeleteAck"@[0] != "SettingModify"@[0]);
    reveal_strlit("SettingDelete");
    assert("NoteDeleteAck"@[0] != "SettingDelete"@[0]);
    reveal_strlit("NoteSyncEnd");
    assert("NoteDeleteAck"@.len() != "NoteSyncEnd"@.len());
    reveal_strlit("NoteSyncModify");
    assert("NoteDeleteAck"@.len() != "NoteSyncModify"@.len());
    reveal_strlit("NoteSyncDelete");
    assert("NoteDeleteAck"@.len() != "NoteSyncDelete"@.len());
    reveal_strlit("NoteSyncRename");
    assert("NoteDeleteAck"@.len() != "NoteSyncRename"@.len());
    reveal_strlit("NoteSyncMtime");
    assert("NoteDeleteAck"@[4] != "NoteSyncMtime"@[4]);
    reveal_strlit("NoteSyncNeedPush");
    assert("NoteDeleteAck"@.len() != "NoteSyncNeedPush"@.len());
    reveal_strlit("NoteModifyAck");
    assert("NoteDeleteAck"@[4] != "NoteModifyAck"@[4]);
}

proof fn lemma_name_server_file_sync_update()
    ensures
        parse_action_name("FileSyncUpdate"@) == Some(Action::Server(ServerAction::FileSyncUpdate)),
{
    broadcast use vstd::string::group_string_axioms;

    reveal_strlit("FileSyncUpdate");
    reveal_strlit("Authorization");
    assert("FileSyncUpdate"@.len() != "Authorization"@.len());
    reveal_strlit("ClientInfo");
    assert("FileSyncUpdate"@.len() != "ClientInfo"@.len());
    reveal_strlit("NoteSync");
    assert("FileSyncUpdate"@.len() != "NoteSync"@.len());
    reveal_strlit("NoteModify");
    assert("FileSyncUpdate"@.len() != "NoteModify"@.len());
    reveal_strlit("NoteDelete");
    assert("FileSyncUpdate"@.len() != "NoteDelete"@.len());
    reveal_strlit("NoteRename");
    assert("FileSyncUpdate"@.len() != "NoteRename"@.len());
    reveal_strlit("NoteCheck");
    assert("FileSyncUpdate"@.len() != "NoteCheck"@.len());
    reveal_strlit("NoteRePush");
    assert("FileSyncUpdate"@.len() != "NoteRePush"@.len());
    reveal_strlit("FileSync");
    assert("FileSyncUpdate"@.len() != "FileSync"@.len());
    reveal_strlit("FileUploadCheck");
    assert("FileSyncUpdate"@.len() != "FileUploadCheck"@.len());
    reveal_strlit("FileDelete");
    assert("FileSyncUpdate"@.len() != "FileDelete"@.len());
    reveal_strlit("FileChunkDownload");
    assert("FileSyncUpdate"@.len() != "FileChunkDownload"@.len());
    reveal_strlit("FolderSync");
    assert("FileSyncUpdate"@.len() != "FolderSync"@.len());
    reveal_strlit("FolderModify");
    assert("FileSyncUpdate"@.len() != "FolderModify"@.len());
    reveal_strlit("FolderDelete");
    assert("FileSyncUpdate"@.len() != "FolderDelete"@.len());
    reveal_strlit("FolderRename");
    assert("FileSyncUpdate"@.len() != "FolderRename"@.len());
    reveal_strlit("SettingSync");
    assert("FileSyncUpdate"@.len() != "SettingSync"@.len());
    reveal_strlit("SettingModify");
    assert("FileSyncUpdate"@.len() != "SettingModify"@.len());
    reveal_strlit("SettingDelete");
    assert("FileSyncUpdate"@.len() != "SettingDelete"@.len());
    reveal_strlit("NoteSyncEnd");
    assert("FileSyncUpdate"@.len() != "NoteSyncEnd"@.len());
    reveal_strlit("NoteSyncModify");
    assert("FileSyncUpdate"@[0] != "NoteSyncModify"@[0]);
    reveal_strlit("NoteSyncDelete");
    assert("FileSyncUpdate"@[0] != "NoteSyncDelete"@[0]);
    reveal_strlit("NoteSyncRename");
    assert("FileSyncUpdate"@[0] != "NoteSyncRename"@[0]);
    reveal_strlit("NoteSyncMtime");
    assert("FileSyncUpdate"@.len() != "NoteSyncMtime"@.len());
    reveal_strlit("NoteSyncNeedPush");
    assert("FileSyncUpdate"@.len() != "NoteSyncNeedPush"@.len());
    reveal_strlit("NoteModifyAck");
    assert("FileSyncUpdate"@.len() != "NoteModifyAck"@.len());
    reveal_strlit("NoteDeleteAck");
    assert("FileSyncUpdate"@.len() != "NoteDeleteAck"@.len());
}

proof fn lemma_name_server_file_sync_delete()
    ensures
        parse_action_name("FileSyncDelete"@) == Some(Action::Server(ServerAction::FileSyncDelete)),
{
    broadcast use vstd::string::group_string_axioms;

    reveal_strlit("FileSyncDelete");
    reveal_strlit("Authorization");
    assert("FileSyncDelete"@.len() != "Authorization"@.len());
    reveal_strlit("ClientInfo");
    assert("FileSyncDelete"@.len() != "ClientInfo"@.len());
    reveal_strlit("NoteSync");
    assert("FileSyncDelete"@.len() != "NoteSync"@.len());
    reveal_strlit("NoteModify");
    assert("FileSyncDelete"@.len() != "NoteModify"@.len());
    reveal_strlit("NoteDelete");
    assert("FileSyncDelete"@.len() != "NoteDelete"@.len());
    reveal_strlit("NoteRename");
    assert("FileSyncDelete"@.len() != "NoteRename"@.len());
    reveal_strlit("NoteCheck");
    assert("FileSyncDelete"@.len() != "NoteCheck"@.len());
    reveal_strlit("NoteRePush");
    assert("FileSyncDelete"@.len() != "NoteRePush"@.len());
    reveal_strlit("FileSync");
    assert("FileSyncDelete"@.len() != "FileSync"@.len());
    reveal_strlit("FileUploadCheck");
    assert("FileSyncDelete"@.len() != "FileUploadCheck"@.len());
    reveal_strlit("FileDelete");
    assert("FileSyncDelete"@.len() != "FileDelete"@.len());
    reveal_strlit("FileChunkDownload");
    assert("FileSyncDelete"@.len() != "FileChunkDownload"@.len());
    reveal_strlit("FolderSync");
    assert("FileSyncDelete"@.len() != "FolderSync"@.len());
    reveal_strlit("FolderModify");
    assert("FileSyncDelete"@.len() != "FolderModify"@.len());
    reveal_strlit("FolderDelete");
    assert("FileSyncDelete"@.len() != "FolderDelete"@.len());
    reveal_strlit("FolderRename");
    assert("FileSyncDelete"@.len() != "FolderRename"@.len());
    reveal_strlit("SettingSync");
    assert("FileSyncDelete"@.len() != "SettingSync"@.len());
    reveal_strlit("SettingModify");
    assert("FileSyncDelete"@.len() != "SettingModify"@.len());
    reveal_strlit("SettingDelete");
    assert("FileSyncDelete"@.len() != "SettingDelete"@.len());
    reveal_strlit("NoteSyncEnd");
    assert("FileSyncDelete"@.len() != "NoteSyncEnd"@.len());
    reveal_strlit("NoteSyncModify");
    assert("FileSyncDelete"@[0] != "NoteSyncModify"@[0]);
    reveal_strlit("NoteSyncDelete");
    assert("FileSyncDelete"@[0] != "NoteSyncDelete"@[0]);
    reveal_strlit("NoteSyncRename");
    assert("FileSyncDelete"@[0] != "NoteSyncRename"@[0]);
    reveal_strlit("NoteSyncMtime");
    assert("FileSyncDelete"@.len() != "NoteSyncMtime"@.len());
    reveal_strlit("NoteSyncNeedPush");
    assert("FileSyncDelete"@.len() != "NoteSyncNeedPush"@.len());
    reveal_strlit("NoteModifyAck");
    assert("FileSyncDelete"@.len() != "NoteModifyAck"@.len());
    reveal_strlit("NoteDeleteAck");
    assert("FileSyncDelete"@.len() != "NoteDeleteAck"@.len());
    reveal_strlit("FileSyncUpdate");
    assert("FileSyncDelete"@[8] != "FileSyncUpdate"@[8]);
}

proof fn lemma_name_server_file_sync_rename()
    ensures
        parse_action_name("FileSyncRename"@) == Some(Action::Server(ServerAction::FileSyncRename)),
{
    broadcast use vstd::string::group_string_axioms;

    reveal_strlit("FileSyncRename");
    reveal_strlit("Authorization");
    assert("FileSyncRename"@.len() != "Authorization"@.len());
    reveal_strlit("ClientInfo");
    assert("FileSyncRename"@.len() != "ClientInfo"@.len());
    reveal_strlit("NoteSync");
    assert("FileSyncRename"@.len() != "NoteSync"@.len());
    reveal_strlit("NoteModify");
    assert("FileSyncRename"@.len() != "NoteModify"@.len());
    reveal_strlit("NoteDelete");
    assert("FileSyncRename"@.len() != "NoteDelete"@.len());
    reveal_strlit("NoteRename");
    assert("FileSyncRename"@.len() != "NoteRename"@.len());
    reveal_strlit("NoteCheck");
    assert("FileSyncRename"@.len() != "NoteCheck"@.len());
    reveal_strlit("NoteRePush");
    assert("FileSyncRename"@.len() != "NoteRePush"@.len());
    reveal_strlit("FileSync");
    assert("FileSyncRename"@.len() != "FileSync"@.len());
    reveal_strlit("FileUploadCheck");
    assert("FileSyncRename"@.len() != "FileUploadCheck"@.len());
    reveal_strlit("FileDelete");
    assert("FileSyncRename"@.len() != "FileDelete"@.len());
    reveal_strlit("FileChunkDownload");
    assert("FileSyncRename"@.len() != "FileChunkDownload"@.len());
    reveal_strlit("FolderSync");
    assert("FileSyncRename"@.len() != "FolderSync"@.len());
    reveal_strlit("FolderModify");
    assert("FileSyncRename"@.len() != "FolderModify"@.len());
    reveal_strlit("FolderDelete");
    assert("FileSyncRename"@.len() != "FolderDelete"@.len());
    reveal_strlit("FolderRename");
    assert("FileSyncRename"@.len() != "FolderRename"@.len());
    reveal_strlit("SettingSync");
    assert("FileSyncRename"@.len() != "SettingSync"@.len());
    reveal_strlit("SettingModify");
    assert("FileSyncRename"@.len() != "SettingModify"@.len());
    reveal_strlit("SettingDelete");
    assert("FileSyncRename"@.len() != "SettingDelete"@.len());
    reveal_strlit("NoteSyncEnd");
    assert("FileSyncRename"@.len() != "NoteSyncEnd"@.len());
    reveal_strlit("NoteSyncModify");
    assert("FileSyncRename"@[0] != "NoteSyncModify"@[0]);
    reveal_strlit("NoteSyncDelete");
    assert("FileSyncRename"@[0] != "NoteSyncDelete"@[0]);
    reveal_strlit("NoteSyncRename");
    assert("FileSyncRename"@[0] != "NoteSyncRename"@[0]);
    reveal_strlit("NoteSyncMtime");
    assert("FileSyncRename"@.len() != "NoteSyncMtime"@.len());
    reveal_strlit("NoteSyncNeedPush");
    assert("FileSyncRename"@.len() != "NoteSyncNeedPush"@.len());
    reveal_strlit("NoteModifyAck");
    assert("FileSyncRename"@.len() != "NoteModifyAck"@.len());
    reveal_strlit("NoteDeleteAck");
    assert("FileSyncRename"@.len() != "NoteDeleteAck"@.len());
    reveal_strlit("FileSyncUpdate");
    assert("FileSyncRename"@[8] != "FileSyncUpdate"@[8]);
    reveal_strlit("FileSyncDelete");
    assert("FileSyncRename"@[8] != "FileSyncDelete"@[8]);
}

proof fn lemma_name_server_file_sync_mtime()
    ensures
        parse_action_name("FileSyncMtime"@) == Some(Action::Server(ServerAction::FileSyncMtime)),
{
    broadcast use vstd::string::group_string_axioms;

    reveal_strlit("FileSyncMtime");
    reveal_strlit("Authorization");
    assert("FileSyncMtime"@[0] != "Authorization"@[0]);
    reveal_strlit("ClientInfo");
    assert("FileSyncMtime"@.len() != "ClientInfo"@.len());
    reveal_strlit("NoteSync");
    assert("FileSyncMtime"@.len() != "NoteSync"@.len());
    reveal_strlit("NoteModify");
    assert("FileSyncMtime"@.len() != "NoteModify"@.len());
    reveal_strlit("NoteDelete");
    assert("FileSyncMtime"@.len() != "NoteDelete"@.len());
    reveal_strlit("NoteRename");
    assert("FileSyncMtime"@.len() != "NoteRename"@.len());
    reveal_strlit("NoteCheck");
    assert("FileSyncMtime"@.len() != "NoteCheck"@.len());
    reveal_strlit("NoteRePush");
    assert("FileSyncMtime"@.len() != "NoteRePush"@.len());
    reveal_strlit("FileSync");
    assert("FileSyncMtime"@.len() != "FileSync"@.len());
    reveal_strlit("FileUploadCheck");
    assert("FileSyncMtime"@.len() != "FileUploadCheck"@.len());
    reveal_strlit("FileDelete");
    assert("FileSyncMtime"@.len() != "FileDelete"@.len());
    reveal_strlit("FileChunkDownload");
    assert("FileSyncMtime"@.len() != "FileChunkDownload"@.len());
    reveal_strlit("FolderSync");
    assert("FileSyncMtime"@.len() != "FolderSync"@.len());
    reveal_strlit("FolderModify");
    assert("FileSyncMtime"@.len() != "FolderModify"@.len());
    reveal_strlit("FolderDelete");
    assert("FileSyncMtime"@.len() != "FolderDelete"@.len());
    reveal_strlit("FolderRename");
    assert("FileSyncMtime"@.len() != "FolderRename"@.len());
    reveal_strlit("SettingSync");
    assert("FileSyncMtime"@.len() != "SettingSync"@.len());
    reveal_strlit("SettingModify");
    assert("FileSyncMtime"@[0] != "SettingModify"@[0]);
    reveal_strlit("SettingDelete");
    assert("FileSyncMtime"@[0] != "SettingDelete"@[0]);
    reveal_strlit("NoteSyncEnd");
    assert("FileSyncMtime"@.len() != "NoteSyncEnd"@.len());
    reveal_strlit("NoteSyncModify");
    assert("FileSyncMtime"@.len() != "NoteSyncModify"@.len());
    reveal_strlit("NoteSyncDelete");
    assert("FileSyncMtime"@.len() != "NoteSyncDelete"@.len());
    reveal_strlit("NoteSyncRename");
    assert("FileSyncMtime"@.len() != "NoteSyncRename"@.len());
    reveal_strlit("NoteSyncMtime");
    assert("FileSyncMtime"@[0] != "NoteSyncMtime"@[0]);
    reveal_strlit("NoteSyncNeedPush");
    assert("FileSyncMtime"@.len() != "NoteSyncNeedPush"@.len());
    reveal_strlit("NoteModifyAck");
    assert("FileSyncMtime"@[0] != "NoteModifyAck"@[0]);
    reveal_strlit("NoteDeleteAck");
    assert("FileSyncMtime"@[0] != "NoteDeleteAck"@[0]);
    reveal_strlit("FileSyncUpdate");
    assert("FileSyncMtime"@.len() != "FileSyncUpdate"@.len());
    reveal_strlit("FileSyncDelete");
    assert("FileSyncMtime"@.len() != "FileSyncDelete"@.len());
    reveal_strlit("FileSyncRename");
    assert("FileSyncMtime"@.len() != "FileSyncRename"@.len());
}

proof fn lemma_name_server_file_sync_chunk_download()
    ensures
        parse_action_name("FileSyncChunkDownload"@) == Some(Action::Server(ServerAction::FileSyncChunkDownload)),
{
    broadcast use vstd::string::group_string_axioms;

    reveal_strlit("FileSyncChunkDownload");
    reveal_strlit("Authorization");
    assert("FileSyncChunkDownload"@.len() != "Authorization"@.len());
    reveal_strlit("ClientInfo");
    assert("FileSyncChunkDownload"@.len() != "ClientInfo"@.len());
    reveal_strlit("NoteSync");
    assert("FileSyncChunkDownload"@.len() != "NoteSync"@.len());
    reveal_strlit("NoteModify");
    assert("FileSyncChunkDownload"@.len() != "NoteModify"@.len());
    reveal_strlit("NoteDelete");
    assert("FileSyncChunkDownload"@.len() != "NoteDelete"@.len());
    reveal_strlit("NoteRename");
    assert("FileSyncChunkDownload"@.len() != "NoteRename"@.len());
    reveal_strlit("NoteCheck");
    assert("FileSyncChunkDownload"@.len() != "NoteCheck"@.len());
    reveal_strlit("NoteRePush");
    assert("FileSyncChunkDownload"@.len() != "NoteRePush"@.len());
    reveal_strlit("FileSync");
    assert("FileSyncChunkDownload"@.len() != "FileSync"@.len());
    reveal_strlit("FileUploadCheck");
    assert("FileSyncChunkDownload"@.len() != "FileUploadCheck"@.len());
    reveal_strlit("FileDelete");
    assert("FileSyncChunkDownload"@.len() != "FileDelete"@.len());
    reveal_strlit("FileChunkDownload");
    assert("FileSyncChunkDownload"@.len() != "FileChunkDownload"@.len());
    reveal_strlit("FolderSync");
    assert("FileSyncChunkDownload"@.len() != "FolderSync"@.len());
    reveal_strlit("FolderModify");
    assert("FileSyncChunkDownload"@.len() != "FolderModify"@.len());
    reveal_strlit("FolderDelete");
    assert("FileSyncChunkDownload"@.len() != "FolderDelete"@.len());
    reveal_strlit("FolderRename");
    assert("FileSyncChunkDownload"@.len() != "FolderRename"@.len());
    reveal_strlit("SettingSync");
    assert("FileSyncChunkDownload"@.len() != "SettingSync"@.len());
    reveal_strlit("SettingModify");
    assert("FileSyncChunkDownload"@.len() != "SettingModify"@.len());
    reveal_strlit("SettingDelete");
    assert("FileSyncChunkDownload"@.len() != "SettingDelete"@.len());
    reveal_strlit("NoteSyncEnd");
    assert("FileSyncChunkDownload"@.len() != "NoteSyncEnd"@.len());
    reveal_strlit("NoteSyncModify");
    assert("FileSyncChunkDownload"@.len() != "NoteSyncModify"@.len());
    reveal_strlit("NoteSyncDelete");
    assert("FileSyncChunkDownload"@.len() != "NoteSyncDelete"@.len());
    reveal_strlit("NoteSyncRename");
    assert("FileSyncChunkDownload"@.len() != "NoteSyncRename"@.len());
    reveal_strlit("NoteSyncMtime");
    assert("FileSyncChunkDownload"@.len() != "NoteSyncMtime"@.len());
    reveal_strlit("NoteSyncNeedPush");
    assert("FileSyncChunkDownload"@.len() != "NoteSyncNeedPush"@.len());
    reveal_strlit("NoteModifyAck");
    assert("FileSyncChunkDownload"@.len() != "NoteModifyAck"@.len());
    reveal_strlit("NoteDeleteAck");
    assert("FileSyncChunkDownload"@.len() != "NoteDeleteAck"@.len());
    reveal_strlit("FileSyncUpdate");
    assert("FileSyncChunkDownload"@.len() != "FileSyncUpdate"@.len());
    reveal_strlit("FileSyncDelete");
    assert("FileSyncChunkDownload"@.len() != "FileSyncDelete"@.len());
    reveal_strlit("FileSyncRename");
    assert("FileSyncChunkDownload"@.len() != "FileSyncRename"@.len());
    reveal_strlit("FileSyncMtime");
    assert("FileSyncChunkDownload"@.len() != "FileSyncMtime"@.len());
}

proof fn lemma_name_server_file_upload()
    ensures
        parse_action_name("FileUpload"@) == Some(Action::Server(ServerAction::FileUpload)),
{
    broadcast use vstd::string::group_string_axioms;

    reveal_strlit("FileUpload");
    reveal_strlit("Authorization");
    assert("FileUpload"@.len() != "Authorization"@.len());
    reveal_strlit("ClientInfo");
    assert("FileUpload"@[0] != "ClientInfo"@[0]);
    reveal_strlit("NoteSync");
    assert("FileUpload"@.len() != "NoteSync"@.len());
    reveal_strlit("NoteModify");
    assert("FileUpload"@[0] != "NoteModify"@[0]);
    reveal_strlit("NoteDelete");
    assert("FileUpload"@[0] != "NoteDelete"@[0]);
    reveal_strlit("NoteRename");
    assert("FileUpload"@[0] != "NoteRename"@[0]);
    reveal_strlit("NoteCheck");
    assert("FileUpload"@.len() != "NoteCheck"@.len());
    reveal_strlit("NoteRePush");
    assert("FileUpload"@[0] != "NoteRePush"@[0]);
    reveal_strlit("FileSync");
    assert("FileUpload"@.len() != "FileSync"@.len());
    reveal_strlit("FileUploadCheck");
    assert("FileUpload"@.len() != "FileUploadCheck"@.len());
    reveal_strlit("FileDelete");
    assert("FileUpload"@[4] != "FileDelete"@[4]);
    reveal_strlit("FileChunkDownload");
    assert("FileUpload"@.len() != "FileChunkDownload"@.len());
    reveal_strlit("FolderSync");
    assert("FileUpload"@[1] != "FolderSync"@[1]);
    reveal_strlit("FolderModify");
    assert("FileUpload"@.len() != "FolderModify"@.len());
    reveal_strlit("FolderDelete");
    assert("FileUpload"@.len() != "FolderDelete"@.len());
    reveal_strlit("FolderRename");
    assert("FileUpload"@.len() != "FolderRename"@.len());
    reveal_strlit("SettingSync");
    assert("FileUpload"@.len() != "SettingSync"@.len());
    reveal_strlit("SettingModify");
    assert("FileUpload"@.len() != "SettingModify"@.len());
    reveal_strlit("SettingDelete");
    assert("FileUpload"@.len() != "SettingDelete"@.len());
    reveal_strlit("NoteSyncEnd");
    assert("FileUpload"@.len() != "NoteSyncEnd"@.len());
    reveal_strlit("NoteSyncModify");
    assert("FileUpload"@.len() != "NoteSyncModify"@.len());
    reveal_strlit("NoteSyncDelete");
    assert("FileUpload"@.len() != "NoteSyncDelete"@.len());
    reveal_strlit("NoteSyncRename");
    assert("FileUpload"@.len() != "NoteSyncRename"@.len());
    reveal_strlit("NoteSyncMtime");
    assert("FileUpload"@.len() != "NoteSyncMtime"@.len());
    reveal_strlit("NoteSyncNeedPush");
    assert("FileUpload"@.len() != "NoteSyncNeedPush"@.len());
    reveal_strlit("NoteModifyAck");
    assert("FileUpload"@.len() != "NoteModifyAck"@.len());
    reveal_strlit("NoteDeleteAck");
    assert("FileUpload"@.len() != "NoteDeleteAck"@.len());
    reveal_strlit("FileSyncUpdate");
    assert("FileUpload"@.len() != "FileSyncUpdate"@.len());
    reveal_strlit("FileSyncDelete");
    assert("FileUpload"@.len() != "FileSyncDelete"@.len());
    reveal_strlit("FileSyncRename");
    assert("FileUpload"@.len() != "FileSyncRename"@.len());
    reveal_strlit("FileSyncMtime");
    assert("FileUpload"@.len() != "FileSyncMtime"@.len());
    reveal_strlit("FileSyncChunkDownload");
    assert("FileUpload"@.len() != "FileSyncChunkDownload"@.len());
}

proof fn lemma_name_server_file_upload_ack()
    ensures
        parse_action_name("FileUploadAck"@) == Some(Action::Server(ServerAction::FileUploadAck)),
{
    broadcast use vstd::string::group_string_axioms;

    reveal_strlit("FileUploadAck");
    reveal_strlit("Authorization");
    assert("FileUploadAck"@[0] != "Authorization"@[0]);
    reveal_strlit("ClientInfo");
    assert("FileUploadAck"@.len() != "ClientInfo"@.len());
    reveal_strlit("NoteSync");
    assert("FileUploadAck"@.len() != "NoteSync"@.len());
    reveal_strlit("NoteModify");
    assert("FileUploadAck"@.len() != "NoteModify"@.len());
    reveal_strlit("NoteDelete");
    assert("FileUploadAck"@.len() != "NoteDelete"@.len());
    reveal_strlit("NoteRename");
    assert("FileUploadAck"@.len() != "NoteRename"@.len());
    reveal_strlit("NoteCheck");
    assert("FileUploadAck"@.len() != "NoteCheck"@.len());
    reveal_strlit("NoteRePush");
    assert("FileUploadAck"@.len() != "NoteRePush"@.len());
    reveal_strlit("FileSync");
    assert("FileUploadAck"@.len() != "FileSync"@.len());
    reveal_strlit("FileUploadCheck");
    assert("FileUploadAck"@.len() != "FileUploadCheck"@.len());
    reveal_strlit("FileDelete");
    assert("FileUploadAck"@.len() != "FileDelete"@.len());
    reveal_strlit("FileChunkDownload");
    assert("FileUploadAck"@.len() != "FileChunkDownload"@.len());
    reveal_strlit("FolderSync");
    assert("FileUploadAck"@.len() != "FolderSync"@.len());
    reveal_strlit("FolderModify");
    assert("FileUploadAck"@.len() != "FolderModify"@.len());
    reveal_strlit("FolderDelete");
    assert("FileUploadAck"@.len() != "FolderDelete"@.len());
    reveal_strlit("FolderRename");
    assert("FileUploadAck"@.len() != "FolderRename"@.len());
    reveal_strlit("SettingSync");
    assert("FileUploadAck"@.len() != "SettingSync"@.len());
    reveal_strlit("SettingModify");
    assert("FileUploadAck"@[0] != "SettingModify"@[0]);
    reveal_strlit("SettingDelete");
    assert("FileUploadAck"@[0] != "SettingDelete"@[0]);
    reveal_strlit("NoteSyncEnd");
    assert("FileUploadAck"@.len() != "NoteSyncEnd"@.len());
    reveal_strlit("NoteSyncModify");
    assert("FileUploadAck"@.len() != "NoteSyncModify"@.len());
    reveal_strlit("NoteSyncDelete");
    assert("FileUploadAck"@.len() != "NoteSyncDelete"@.len());
    reveal_strlit("NoteSyncRename");
    assert("FileUploadAck"@.len() != "NoteSyncRename"@.len());
    reveal_strlit("NoteSyncMtime");
    assert("FileUploadAck"@[0] != "NoteSyncMtime"@[0]);
    reveal_strlit("NoteSyncNeedPush");
    assert("FileUploadAck"@.len() != "NoteSyncNeedPush"@.len());
    reveal_strlit("NoteModifyAck");
    assert("FileUploadAck"@[0] != "NoteModifyAck"@[0]);
    reveal_strlit("NoteDeleteAck");
    assert("FileUploadAck"@[0] != "NoteDeleteAck"@[0]);
    reveal_strlit("FileSyncUpdate");
    assert("FileUploadAck"@.len() != "FileSyncUpdate"@.len());
    reveal_strlit("FileSyncDelete");
    assert("FileUploadAck"@.len() != "FileSyncDelete"@.len());
    reveal_strlit("FileSyncRename");
    assert("FileUploadAck"@.len() != "FileSyncRename"@.len());
    reveal_strlit("FileSyncMtime");
    assert("FileUploadAck"@[4] != "FileSyncMtime"@[4]);
    reveal_strlit("FileSyncChunkDownload");
    assert("FileUploadAck"@.len() != "FileSyncChunkDownload"@.len());
    reveal_strlit("FileUpload");
    assert("FileUploadAck"@.len() != "FileUpload"@.len());
}

proof fn lemma_name_server_file_delete_ack()
    ensures
        parse_action_name("FileDeleteAck"@) == Some(Action::Server(ServerAction::FileDeleteAck)),
{
    broadcast use vstd::string::group_string_axioms;

    reveal_strlit("FileDeleteAck");
    reveal_strlit("Authorization");
    assert("FileDeleteAck"@[0] != "Authorization"@[0]);
    reveal_strlit("ClientInfo");
    assert("FileDeleteAck"@.len() != "ClientInfo"@.len());
    reveal_strlit("NoteSync");
    assert("FileDeleteAck"@.len() != "NoteSync"@.len());
    reveal_strlit("NoteModify");
    assert("FileDeleteAck"@.len() != "NoteModify"@.len());
    reveal_strlit("NoteDelete");
    assert("FileDeleteAck"@.len() != "NoteDelete"@.len());
    reveal_strlit("NoteRename");
    assert("FileDeleteAck"@.len() != "NoteRename"@.len());
    reveal_strlit("NoteCheck");
    assert("FileDeleteAck"@.len() != "NoteCheck"@.len());
    reveal_strlit("NoteRePush");
    assert("FileDeleteAck"@.len() != "NoteRePush"@.len());
    reveal_strlit("FileSync");
    assert("FileDeleteAck"@.len() != "FileSync"@.len());
    reveal_strlit("FileUploadCheck");
    assert("FileDeleteAck"@.len() != "FileUploadCheck"@.len());
    reveal_strlit("FileDelete");
    assert("FileDeleteAck"@.len() != "FileDelete"@.len());
    reveal_strlit("FileChunkDownload");
    assert("FileDeleteAck"@.len() != "FileChunkDownload"@.len());
    reveal_strlit("FolderSync");
    assert("FileDeleteAck"@.len() != "FolderSync"@.len());
    reveal_strlit("FolderModify");
    assert("FileDeleteAck"@.len() != "FolderModify"@.len());
    reveal_strlit("FolderDelete");
    assert("FileDeleteAck"@.len() != "FolderDelete"@.len());
    reveal_strlit("FolderRename");
    assert("FileDeleteAck"@.len() != "FolderRename"@.len());
    reveal_strlit("SettingSync");
    assert("FileDeleteAck"@.len() != "SettingSync"@.len());
    reveal_strlit("SettingModify");
    assert("FileDeleteAck"@[0] != "SettingModify"@[0]);
    reveal_strlit("SettingDelete");
    assert("FileDeleteAck"@[0] != "SettingDelete"@[0]);
    reveal_strlit("NoteSyncEnd");
    assert("FileDeleteAck"@.len() != "NoteSyncEnd"@.len());
    reveal_strlit("NoteSyncModify");
    assert("FileDeleteAck"@.len() != "NoteSyncModify"@.len());
    reveal_strlit("NoteSyncDelete");
    assert("FileDeleteAck"@.len() != "NoteSyncDelete"@.len());
    reveal_strlit("NoteSyncRename");
    assert("FileDeleteAck"@.len() != "NoteSyncRename"@.len());
    reveal_strlit("NoteSyncMtime");
    assert("FileDeleteAck"@[0] != "NoteSyncMtime"@[0]);
    reveal_strlit("NoteSyncNeedPush");
    assert("FileDeleteAck"@.len() != "NoteSyncNeedPush"@.len());
    reveal_strlit("NoteModifyAck");
    assert("FileDeleteAck"@[0] != "NoteModifyAck"@[0]);
    reveal_strlit("NoteDeleteAck");
    assert("FileDeleteAck"@[0] != "NoteDeleteAck"@[0]);
    reveal_strlit("FileSyncUpdate");
    assert("FileDeleteAck"@.len() != "FileSyncUpdate"@.len());
    reveal_strlit("FileSyncDelete");
    assert("FileDeleteAck"@.len() != "FileSyncDelete"@.len());
    reveal_strlit("FileSyncRename");
    assert("FileDeleteAck"@.len() != "FileSyncRename"@.len());
    reveal_strlit("FileSyncMtime");
    assert("FileDeleteAck"@[4] != "FileSyncMtime"@[4]);
    reveal_strlit("FileSyncChunkDownload");
    assert("FileDeleteAck"@.len() != "FileSyncChunkDownload"@.len());
    reveal_strlit("FileUpload");
    assert("FileDeleteAck"@.len() != "FileUpload"@.len());
    reveal_strlit("FileUploadAck");
    assert("FileDeleteAck"@[4] != "FileUploadAck"@[4]);
}

proof fn lemma_name_server_file_sync_end()
    ensures
        parse_action_name("FileSyncEnd"@) == Some(Action::Server(ServerAction::FileSyncEnd)),
{
    broadcast use vstd::string::group_string_axioms;

    reveal_strlit("FileSyncEnd");
    reveal_strlit("Authorization");
    assert("FileSyncEnd"@.len() != "Authorization"@.len());
    reveal_strlit("ClientInfo");
    assert("FileSyncEnd"@.len() != "ClientInfo"@.len());
    reveal_strlit("NoteSync");
    assert("FileSyncEnd"@.len() != "NoteSync"@.len());
    reveal_strlit("NoteModify");
    assert("FileSyncEnd"@.len() != "NoteModify"@.len());
    reveal_strlit("NoteDelete");
    assert("FileSyncEnd"@.len() != "NoteDelete"@.len());
    reveal_strlit("NoteRename");
    assert("FileSyncEnd"@.len() != "NoteRename"@.len());
    reveal_strlit("NoteCheck");
    assert("FileSyncEnd"@.len() != "NoteCheck"@.len());
    reveal_strlit("NoteRePush");
    assert("FileSyncEnd"@.len() != "NoteRePush"@.len());
    reveal_strlit("FileSync");
    assert("FileSyncEnd"@.len() != "FileSync"@.len());
    reveal_strlit("FileUploadCheck");
    assert("FileSyncEnd"@.len() != "FileUploadCheck"@.len());
    reveal_strlit("FileDelete");
    assert("FileSyncEnd"@.len() != "FileDelete"@.len());
    reveal_strlit("FileChunkDownload");
    assert("FileSyncEnd"@.len() != "FileChunkDownload"@.len());
    reveal_strlit("FolderSync");
    assert("FileSyncEnd"@.len() != "FolderSync"@.len());
    reveal_strlit("FolderModify");
    assert("FileSyncEnd"@.len() != "FolderModify"@.len());
    reveal_strlit("FolderDelete");
    assert("FileSyncEnd"@.len() != "FolderDelete"@.len());
    reveal_strlit("FolderRename");
    assert("FileSyncEnd"@.len() != "FolderRename"@.len());
    reveal_strlit("SettingSync");
    assert("FileSyncEnd"@[0] != "SettingSync"@[0]);
    reveal_strlit("SettingModify");
    assert("FileSyncEnd"@.len() != "SettingModify"@.len());
    reveal_strlit("SettingDelete");
    assert("FileSyncEnd"@.len() != "SettingDelete"@.len());
    reveal_strlit("NoteSyncEnd");
    assert("FileSyncEnd"@[0] != "NoteSyncEnd"@[0]);
    reveal_strlit("NoteSyncModify");
    assert("FileSyncEnd"@.len() != "NoteSyncModify"@.len());
    reveal_strlit("NoteSyncDelete");
    assert("FileSyncEnd"@.len() != "NoteSyncDelete"@.len());
    reveal_strlit("NoteSyncRename");
    assert("FileSyncEnd"@.len() != "NoteSyncRename"@.len());
    reveal_strlit("NoteSyncMtime");
    assert("FileSyncEnd"@.len() != "NoteSyncMtime"@.len());
    reveal_strlit("NoteSyncNeedPush");
    assert("FileSyncEnd"@.len() != "NoteSyncNeedPush"@.len());
    reveal_strlit("NoteModifyAck");
    assert("FileSyncEnd"@.len() != "NoteModifyAck"@.len());
    reveal_strlit("NoteDeleteAck");
    assert("FileSyncEnd"@.len() != "NoteDeleteAck"@.len());
    reveal_strlit("FileSyncUpdate");
    assert("FileSyncEnd"@.len() != "FileSyncUpdate"@.len());
    reveal_strlit("FileSyncDelete");
    assert("FileSyncEnd"@.len() != "FileSyncDelete"@.len());
    reveal_strlit("FileSyncRename");
    assert("FileSyncEnd"@.len() != "FileSyncRename"@.len());
    reveal_strlit("FileSyncMtime");
    assert("FileSyncEnd"@.len() != "FileSyncMtime"@.len());
    reveal_strlit("FileSyncChunkDownload");
    assert("FileSyncEnd"@.len() != "FileSyncChunkDownload"@.len());
    reveal_strlit("FileUpload");
    assert("FileSyncEnd"@.len() != "FileUpload"@.len());
    reveal_strlit("FileUploadAck");
    assert("FileSyncEnd"@.len() != "FileUploadAck"@.len());
    reveal_strlit("FileDeleteAck");
    assert("FileSyncEnd"@.len() != "FileDeleteAck"@.len());
}

proof fn lemma_name_server_setting_sync_modify()
    ensures
        parse_action_name("SettingSyncModify"@) == Some(Action::Server(ServerAction::SettingSyncModify)),
{
    broadcast use vstd::string::group_string_axioms;

    reveal_strlit("SettingSyncModify");
    reveal_strlit("Authorization");
    assert("SettingSyncModify"@.len() != "Authorization"@.len());
    reveal_strlit("ClientInfo");
    assert("SettingSyncModify"@.len() != "ClientInfo"@.len());
    reveal_strlit("NoteSync");
    assert("SettingSyncModify"@.len() != "NoteSync"@.len());
    reveal_strlit("NoteModify");
    assert("SettingSyncModify"@.len() != "NoteModify"@.len());
    reveal_strlit("NoteDelete");
    assert("SettingSyncModify"@.len() != "NoteDelete"@.len());
    reveal_strlit("NoteRename");
    assert("SettingSyncModify"@.len() != "NoteRename"@.len());
    reveal_strlit("NoteCheck");
    assert("SettingSyncModify"@.len() != "NoteCheck"@.len());
    reveal_strlit("NoteRePush");
    assert("SettingSyncModify"@.len() != "NoteRePush"@.len());
    reveal_strlit("FileSync");
    assert("SettingSyncModify"@.len() != "FileSync"@.len());
    reveal_strlit("FileUploadCheck");
    assert("SettingSyncModify"@.len() != "FileUploadCheck"@.len());
    reveal_strlit("FileDelete");
    assert("SettingSyncModify"@.len() != "FileDelete"@.len());
    reveal_strlit("FileChunkDownload");
    assert("SettingSyncModify"@[0] != "FileChunkDownload"@[0]);
    reveal_strlit("FolderSync");
    assert("SettingSyncModify"@.len() != "FolderSync"@.len());
    reveal_strlit("FolderModify");
    assert("SettingSyncModify"@.len() != "FolderModify"@.len());
    reveal_strlit("FolderDelete");
    assert("SettingSyncModify"@.len() != "FolderDelete"@.len());
    reveal_strlit("FolderRename");
    assert("SettingSyncModify"@.len() != "FolderRename"@.len());
    reveal_strlit("SettingSync");
    assert("SettingSyncModify"@.len() != "SettingSync"@.len());
    reveal_strlit("SettingModify");
    assert("SettingSyncModify"@.len() != "SettingModify"@.len());
    reveal_strlit("SettingDelete");
    assert("SettingSyncModify"@.len() != "SettingDelete"@.len());
    reveal_strlit("NoteSyncEnd");
    assert("SettingSyncModify"@.len() != "NoteSyncEnd"@.len());
    reveal_strlit("NoteSyncModify");
    assert("SettingSyncModify"@.len() != "NoteSyncModify"@.len());
    reveal_strlit("NoteSyncDelete");
    assert("SettingSyncModify"@.len() != "NoteSyncDelete"@.len());
    reveal_strlit("NoteSyncRename");
    assert("SettingSyncModify"@.len() != "NoteSyncRename"@.len());
    reveal_strlit("NoteSyncMtime");
    assert("SettingSyncModify"@.len() != "NoteSyncMtime"@.len());
    reveal_strlit("NoteSyncNeedPush");
    assert("SettingSyncModify"@.len() != "NoteSyncNeedPush"@.len());
    reveal_strlit("NoteModifyAck");
    assert("SettingSyncModify"@.len() != "NoteModifyAck"@.len());
    reveal_strlit("NoteDeleteAck");
    assert("SettingSyncModify"@.len() != "NoteDeleteAck"@.len());
    reveal_strlit("FileSyncUpdate");
    assert("SettingSyncModify"@.len() != "FileSyncUpdate"@.len());
    reveal_strlit("FileSyncDelete");
    assert("SettingSyncModify"@.len() != "FileSyncDelete"@.len());
    reveal_strlit("FileSyncRename");
    assert("SettingSyncModify"@.len() != "FileSyncRename"@.len());
    reveal_strlit("FileSyncMtime");
    assert("SettingSyncModify"@.len() != "FileSyncMtime"@.len());
    reveal_strlit("FileSyncChunkDownload");
    assert("SettingSyncModify"@.len() != "FileSyncChunkDownload"@.len());
    reveal_strlit("FileUpload");
    assert("SettingSyncModify"@.len() != "FileUpload"@.len());
    reveal_strlit("FileUploadAck");
    assert("SettingSyncModify"@.len() != "FileUploadAck"@.len());
    reveal_strlit("FileDeleteAck");
    assert("SettingSyncModify"@.len() != "FileDeleteAck"@.len());
    reveal_strlit("FileSyncEnd");
    assert("SettingSyncModify"@.len() != "FileSyncEnd"@.len());
}

proof fn lemma_name_server_setting_sync_delete()
    ensures
        parse_action_name("SettingSyncDelete"@) == Some(Action::Server(ServerAction::SettingSyncDelete)),
{
    broadcast use vstd::string::group_string_axioms;

    reveal_strlit("SettingSyncDelete");
    reveal_strlit("Authorization");
    assert("SettingSyncDelete"@.len() != "Authorization"@.len());
    reveal_strlit("ClientInfo");
    assert("SettingSyncDelete"@.len() != "ClientInfo"@.len());
    reveal_strlit("NoteSync");
    assert("SettingSyncDelete"@.len() != "NoteSync"@.len());
    reveal_strlit("NoteModify");
    assert("SettingSyncDelete"@.len() != "NoteModify"@.len());
    reveal_strlit("NoteDelete");
    assert("SettingSyncDelete"@.len() != "NoteDelete"@.len());
    reveal_strlit("NoteRename");
    assert("SettingSyncDelete"@.len() != "NoteRename"@.len());
    reveal_strlit("NoteCheck");
    assert("SettingSyncDelete"@.len() != "NoteCheck"@.len());
    reveal_strlit("NoteRePush");
    assert("SettingSyncDelete"@.len() != "NoteRePush"@.len());
    reveal_strlit("FileSync");
    assert("SettingSyncDelete"@.len() != "FileSync"@.len());
    reveal_strlit("FileUploadCheck");
    assert("SettingSyncDelete"@.len() != "FileUploadCheck"@.len());
    reveal_strlit("FileDelete");
    assert("SettingSyncDelete"@.len() != "FileDelete"@.len());
    reveal_strlit("FileChunkDownload");
    assert("SettingSyncDelete"@[0] != "FileChunkDownload"@[0]);
    reveal_strlit("FolderSync");
    assert("SettingSyncDelete"@.len() != "FolderSync"@.len());
    reveal_strlit("FolderModify");
    assert("SettingSyncDelete"@.len() != "FolderModify"@.len());
    reveal_strlit("FolderDelete");
    assert("SettingSyncDelete"@.len() != "FolderDelete"@.len());
    reveal_strlit("FolderRename");
    assert("SettingSyncDelete"@.len() != "FolderRename"@.len());
    reveal_strlit("SettingSync");
    assert("SettingSyncDelete"@.len() != "SettingSync"@.len());
    reveal_strlit("SettingModify");
    assert("SettingSyncDelete"@.len() != "SettingModify"@.len());
    reveal_strlit("SettingDelete");
    assert("SettingSyncDelete"@.len() != "SettingDelete"@.len());
    reveal_strlit("NoteSyncEnd");
    assert("SettingSyncDelete"@.len() != "NoteSyncEnd"@.len());
    reveal_strlit("NoteSyncModify");
    assert("SettingSyncDelete"@.len() != "NoteSyncModify"@.len());
    reveal_strlit("NoteSyncDelete");
    assert("SettingSyncDelete"@.len() != "NoteSyncDelete"@.len());
    reveal_strlit("NoteSyncRename");
    assert("SettingSyncDelete"@.len() != "NoteSyncRename"@.len());
    reveal_strlit("NoteSyncMtime");
    assert("SettingSyncDelete"@.len() != "NoteSyncMtime"@.len());
    reveal_strlit("NoteSyncNeedPush");
    assert("SettingSyncDelete"@.len() != "NoteSyncNeedPush"@.len());
    reveal_strlit("NoteModifyAck");
    assert("SettingSyncDelete"@.len() != "NoteModifyAck"@.len());
    reveal_strlit("NoteDeleteAck");
    assert("SettingSyncDelete"@.len() != "NoteDeleteAck"@.len());
    reveal_strlit("FileSyncUpdate");
    assert("SettingSyncDelete"@.len() != "FileSyncUpdate"@.len());
    reveal_strlit("FileSyncDelete");
    assert("SettingSyncDelete"@.len() != "FileSyncDelete"@.len());
    reveal_strlit("FileSyncRename");
    assert("SettingSyncDelete"@.len() != "FileSyncRename"@.len());
    reveal_strlit("FileSyncMtime");
    assert("SettingSyncDelete"@.len() != "FileSyncMtime"@.len());
    reveal_strlit("FileSyncChunkDownload");
    assert("SettingSyncDelete"@.len() != "FileSyncChunkDownload"@.len());
    reveal_strlit("FileUpload");
    assert("SettingSyncDelete"@.len() != "FileUpload"@.len());
    reveal_strlit("FileUploadAck");
    assert("SettingSyncDelete"@.len() != "FileUploadAck"@.len());
    reveal_strlit("FileDeleteAck");
    assert("SettingSyncDelete"@.len() != "FileDeleteAck"@.len());
    reveal_strlit("FileSyncEnd");
    assert("SettingSyncDelete"@.len() != "FileSyncEnd"@.len());
    reveal_strlit("SettingSyncModify");
    assert("SettingSyncDelete"@[11] != "SettingSyncModify"@[11]);
}

proof fn lemma_name_server_setting_sync_rename()
    ensures
        parse_action_name("SettingSyncRename"@) == Some(Action::Server(ServerAction::SettingSyncRename)),
{
    broadcast use vstd::string::group_string_axioms;

    reveal_strlit("SettingSyncRename");
    reveal_strlit("Authorization");
    assert("SettingSyncRename"@.len() != "Authorization"@.len());
    reveal_strlit("ClientInfo");
    assert("SettingSyncRename"@.len() != "ClientInfo"@.len());
    reveal_strlit("NoteSync");
    assert("SettingSyncRename"@.len() != "NoteSync"@.len());
    reveal_strlit("NoteModify");
    assert("SettingSyncRename"@.len() != "NoteModify"@.len());
    reveal_strlit("NoteDelete");
    assert("SettingSyncRename"@.len() != "NoteDelete"@.len());
    reveal_strlit("NoteRename");
    assert("SettingSyncRename"@.len() != "NoteRename"@.len());
    reveal_strlit("NoteCheck");
    assert("SettingSyncRename"@.len() != "NoteCheck"@.len());
    reveal_strlit("NoteRePush");
    assert("SettingSyncRename"@.len() != "NoteRePush"@.len());
    reveal_strlit("FileSync");
    assert("SettingSyncRename"@.len() != "FileSync"@.len());
    reveal_strlit("FileUploadCheck");
    assert("SettingSyncRename"@.len() != "FileUploadCheck"@.len());
    reveal_strlit("FileDelete");
    assert("SettingSyncRename"@.len() != "FileDelete"@.len());
    reveal_strlit("FileChunkDownload");
    assert("SettingSyncRename"@[0] != "FileChunkDownload"@[0]);
    reveal_strlit("FolderSync");
    assert("SettingSyncRename"@.len() != "FolderSync"@.len());
    reveal_strlit("FolderModify");
    assert("SettingSyncRename"@.len() != "FolderModify"@.len());
    reveal_strlit("FolderDelete");
    assert("SettingSyncRename"@.len() != "FolderDelete"@.len());
    reveal_strlit("FolderRename");
    assert("SettingSyncRename"@.len() != "FolderRename"@.len());
    reveal_strlit("SettingSync");
    assert("SettingSyncRename"@.len() != "SettingSync"@.len());
    reveal_strlit("SettingModify");
    assert("SettingSyncRename"@.len() != "SettingModify"@.len());
    reveal_strlit("SettingDelete");
    assert("SettingSyncRename"@.len() != "SettingDelete"@.len());
    reveal_strlit("NoteSyncEnd");
    assert("SettingSyncRename"@.len() != "NoteSyncEnd"@.len());
    reveal_strlit("NoteSyncModify");
    assert("SettingSyncRename"@.len() != "NoteSyncModify"@.len());
    reveal_strlit("NoteSyncDelete");
    assert("SettingSyncRename"@.len() != "NoteSyncDelete"@.len());
    reveal_strlit("NoteSyncRename");
    assert("SettingSyncRename"@.len() != "NoteSyncRename"@.len());
    reveal_strlit("NoteSyncMtime");
    assert("SettingSyncRename"@.len() != "NoteSyncMtime"@.len());
    reveal_strlit("NoteSyncNeedPush");
    assert("SettingSyncRename"@.len() != "NoteSyncNeedPush"@.len());
    reveal_strlit("NoteModifyAck");
    assert("SettingSyncRename"@.len() != "NoteModifyAck"@.len());
    reveal_strlit("NoteDeleteAck");
    assert("SettingSyncRename"@.len() != "NoteDeleteAck"@.len());
    reveal_strlit("FileSyncUpdate");
    assert("SettingSyncRename"@.len() != "FileSyncUpdate"@.len());
    reveal_strlit("FileSyncDelete");
    assert("SettingSyncRename"@.len() != "FileSyncDelete"@.len());
    reveal_strlit("FileSyncRename");
    assert("SettingSyncRename"@.len() != "FileSyncRename"@.len());
    reveal_strlit("FileSyncMtime");
    assert("SettingSyncRename"@.len() != "FileSyncMtime"@.len());
    reveal_strlit("FileSyncChunkDownload");
    assert("SettingSyncRename"@.len() != "FileSyncChunkDownload"@.len());
    reveal_strlit("FileUpload");
    assert("SettingSyncRename"@.len() != "FileUpload"@.len());
    reveal_strlit("FileUploadAck");
    assert("SettingSyncRename"@.len() != "FileUploadAck"@.len());
    reveal_strlit("FileDeleteAck");
    assert("SettingSyncRename"@.len() != "FileDeleteAck"@.len());
    reveal_strlit("FileSyncEnd");
    assert("SettingSyncRename"@.len() != "FileSyncEnd"@.len());
    reveal_strlit("SettingSyncModify");
    assert("SettingSyncRename"@[11] != "SettingSyncModify"@[11]);
    reveal_strlit("SettingSyncDelete");
    assert("SettingSyncRename"@[11] != "SettingSyncDelete"@[11]);
}

proof fn lemma_name_server_setting_sync_mtime()
    ensures
        parse_action_name("SettingSyncMtime"@) == Some(Action::Server(ServerAction::SettingSyncMtime)),
{
    broadcast use vstd::string::group_string_axioms;

    reveal_strlit("SettingSyncMtime");
    reveal_strlit("Authorization");
    assert("SettingSyncMtime"@.len() != "Authorization"@.len());
    reveal_strlit("ClientInfo");
    assert("SettingSyncMtime"@.len() != "ClientInfo"@.len());
    reveal_strlit("NoteSync");
    assert("SettingSyncMtime"@.len() != "NoteSync"@.len());
    reveal_strlit("NoteModify");
    assert("SettingSyncMtime"@.len() != "NoteModify"@.len());
    reveal_strlit("NoteDelete");
    assert("SettingSyncMtime"@.len() != "NoteDelete"@.len());
    reveal_strlit("NoteRename");
    assert("SettingSyncMtime"@.len() != "NoteRename"@.len());
    reveal_strlit("NoteCheck");
    assert("SettingSyncMtime"@.len() != "NoteCheck"@.len());
    reveal_strlit("NoteRePush");
    assert("SettingSyncMtime"@.len() != "NoteRePush"@.len());
    reveal_strlit("FileSync");
    assert("SettingSyncMtime"@.len() != "FileSync"@.len());
    reveal_strlit("FileUploadCheck");
    assert("SettingSyncMtime"@.len() != "FileUploadCheck"@.len());
    reveal_strlit("FileDelete");
    assert("SettingSyncMtime"@.len() != "FileDelete"@.len());
    reveal_strlit("FileChunkDownload");
    assert("SettingSyncMtime"@.len() != "FileChunkDownload"@.len());
    reveal_strlit("FolderSync");
    assert("SettingSyncMtime"@.len() != "FolderSync"@.len());
    reveal_strlit("FolderModify");
    assert("SettingSyncMtime"@.len() != "FolderModify"@.len());
    reveal_strlit("FolderDelete");
    assert("SettingSyncMtime"@.len() != "FolderDelete"@.len());
    reveal_strlit("FolderRename");
    assert("SettingSyncMtime"@.len() != "FolderRename"@.len());
    reveal_strlit("SettingSync");
    assert("SettingSyncMtime"@.len() != "SettingSync"@.len());
    reveal_strlit("SettingModify");
    assert("SettingSyncMtime"@.len() != "SettingModify"@.len());
    reveal_strlit("SettingDelete");
    assert("SettingSyncMtime"@.len() != "SettingDelete"@.len());
    reveal_strlit("NoteSyncEnd");
    assert("SettingSyncMtime"@.len() != "NoteSyncEnd"@.len());
    reveal_strlit("NoteSyncModify");
    assert("SettingSyncMtime"@.len() != "NoteSyncModify"@.len());
    reveal_strlit("NoteSyncDelete");
    assert("SettingSyncMtime"@.len() != "NoteSyncDelete"@.len());
    reveal_strlit("NoteSyncRename");
    assert("SettingSyncMtime"@.len() != "NoteSyncRename"@.len());
    reveal_strlit("NoteSyncMtime");
    assert("SettingSyncMtime"@.len() != "NoteSyncMtime"@.len());
    reveal_strlit("NoteSyncNeedPush");
    assert("SettingSyncMtime"@[0] != "NoteSyncNeedPush"@[0]);
    reveal_strlit("NoteModifyAck");
    assert("SettingSyncMtime"@.len() != "NoteModifyAck"@.len());
    reveal_strlit("NoteDeleteAck");
    assert("SettingSyncMtime"@.len() != "NoteDeleteAck"@.len());
    reveal_strlit("FileSyncUpdate");
    assert("SettingSyncMtime"@.len() != "FileSyncUpdate"@.len());
    reveal_strlit("FileSyncDelete");
    assert("SettingSyncMtime"@.len() != "FileSyncDelete"@.len());
    reveal_strlit("FileSyncRename");
    assert("SettingSyncMtime"@.len() != "FileSyncRename"@.len());
    reveal_strlit("FileSyncMtime");
    assert("SettingSyncMtime"@.len() != "FileSyncMtime"@.len());
    reveal_strlit("FileSyncChunkDownload");
    assert("SettingSyncMtime"@.len() != "FileSyncChunkDownload"@.len());
    reveal_strlit("FileUpload");
    assert("SettingSyncMtime"@.len() != "FileUpload"@.len());
    reveal_strlit("FileUploadAck");
    assert("SettingSyncMtime"@.len() != "FileUploadAck"@.len());
    reveal_strlit("FileDeleteAck");
    assert("SettingSyncMtime"@.len() != "FileDeleteAck"@.len());
    reveal_strlit("FileSyncEnd");
    assert("SettingSyncMtime"@.len() != "FileSyncEnd"@.len());
    reveal_strlit("SettingSyncModify");
    assert("SettingSyncMtime"@.len() != "SettingSyncModify"@.len());
    reveal_strlit("SettingSyncDelete");
    assert("SettingSyncMtime"@.len() != "SettingSyncDelete"@.len());
    reveal_strlit("SettingSyncRename");
    assert("SettingSyncMtime"@.len() != "SettingSyncRename"@.len());
}

proof fn lemma_name_server_setting_sync_need_upload()
    ensures
        parse_action_name("SettingSyncNeedUpload"@) == Some(Action::Server(ServerAction::SettingSyncNeedUpload)),
{
    broadcast use vstd::string::group_string_axioms;

    reveal_strlit("SettingSyncNeedUpload");
    reveal_strlit("Authorization");
    assert("SettingSyncNeedUpload"@.len() != "Authorization"@.len());
    reveal_strlit("ClientInfo");
    assert("SettingSyncNeedUpload"@.len() != "ClientInfo"@.len());
    reveal_strlit("NoteSync");
    assert("SettingSyncNeedUpload"@.len() != "NoteSync"@.len());
    reveal_strlit("NoteModify");
    assert("SettingSyncNeedUpload"@.len() != "NoteModify"@.len());
    reveal_strlit("NoteDelete");
    assert("SettingSyncNeedUpload"@.len() != "NoteDelete"@.len());
    reveal_strlit("NoteRename");
    assert("SettingSyncNeedUpload"@.len() != "NoteRename"@.len());
    reveal_strlit("NoteCheck");
    assert("SettingSyncNeedUpload"@.len() != "NoteCheck"@.len());
    reveal_strlit("NoteRePush");
    assert("SettingSyncNeedUpload"@.len() != "NoteRePush"@.len());
    reveal_strlit("FileSync");
    assert("SettingSyncNeedUpload"@.len() != "FileSync"@.len());
    reveal_strlit("FileUploadCheck");
    assert("SettingSyncNeedUpload"@.len() != "FileUploadCheck"@.len());
    reveal_strlit("FileDelete");
    assert("SettingSyncNeedUpload"@.len() != "FileDelete"@.len());
    reveal_strlit("FileChunkDownload");
    assert("SettingSyncNeedUpload"@.len() != "FileChunkDownload"@.len());
    reveal_strlit("FolderSync");
    assert("SettingSyncNeedUpload"@.len() != "FolderSync"@.len());
    reveal_strlit("FolderModify");
    assert("SettingSyncNeedUpload"@.len() != "FolderModify"@.len());
    reveal_strlit("FolderDelete");
    assert("SettingSyncNeedUpload"@.len() != "FolderDelete"@.len());
    reveal_strlit("FolderRename");
    assert("SettingSyncNeedUpload"@.len() != "FolderRename"@.len());
    reveal_strlit("SettingSync");
    assert("SettingSyncNeedUpload"@.len() != "SettingSync"@.len());
    reveal_strlit("SettingModify");
    assert("SettingSyncNeedUpload"@.len() != "SettingModify"@.len());
    reveal_strlit("SettingDelete");
    assert("SettingSyncNeedUpload"@.len() != "SettingDelete"@.len());
    reveal_strlit("NoteSyncEnd");
    assert("SettingSyncNeedUpload"@.len() != "NoteSyncEnd"@.len());
    reveal_strlit("NoteSyncModify");
    assert("SettingSyncNeedUpload"@.len() != "NoteSyncModify"@.len());
    reveal_strlit("NoteSyncDelete");
    assert("SettingSyncNeedUpload"@.len() != "NoteSyncDelete"@.len());
    reveal_strlit("NoteSyncRename");
    assert("SettingSyncNeedUpload"@.len() != "NoteSyncRename"@.len());
    reveal_strlit("NoteSyncMtime");
    assert("SettingSyncNeedUpload"@.len() != "NoteSyncMtime"@.len());
    reveal_strlit("NoteSyncNeedPush");
    assert("SettingSyncNeedUpload"@.len() != "NoteSyncNeedPush"@.len());
    reveal_strlit("NoteModifyAck");
    assert("SettingSyncNeedUpload"@.len() != "NoteModifyAck"@.len());
    reveal_strlit("NoteDeleteAck");
    assert("SettingSyncNeedUpload"@.len() != "NoteDeleteAck"@.len());
    reveal_strlit("FileSyncUpdate");
    assert("SettingSyncNeedUpload"@.len() != "FileSyncUpdate"@.len());
    reveal_strlit("FileSyncDelete");
    assert("SettingSyncNeedUpload"@.len() != "FileSyncDelete"@.len());
    reveal_strlit("FileSyncRename");
    assert("SettingSyncNeedUpload"@.len() != "FileSyncRename"@.len());
    reveal_strlit("FileSyncMtime");
    assert("SettingSyncNeedUpload"@.len() != "FileSyncMtime"@.len());
    reveal_strlit("FileSyncChunkDownload");
    assert("SettingSyncNeedUpload"@[0] != "FileSyncChunkDownload"@[0]);
    reveal_strlit("FileUpload");
    assert("SettingSyncNeedUpload"@.len() != "FileUpload"@.len());
    reveal_strlit("FileUploadAck");
    assert("SettingSyncNeedUpload"@.len() != "FileUploadAck"@.len());
    reveal_strlit("FileDeleteAck");
    assert("SettingSyncNeedUpload"@.len() != "FileDeleteAck"@.len());
    reveal_strlit("FileSyncEnd");
    assert("SettingSyncNeedUpload"@.len() != "FileSyncEnd"@.len());
    reveal_strlit("SettingSyncModify");
    assert("SettingSyncNeedUpload"@.len() != "SettingSyncModify"@.len());
    reveal_strlit("SettingSyncDelete");
    assert("SettingSyncNeedUpload"@.len() != "SettingSyncDelete"@.len());
    reveal_strlit("SettingSyncRename");
    assert("SettingSyncNeedUpload"@.len() != "SettingSyncRename"@.len());
    reveal_strlit("SettingSyncMtime");
    assert("SettingSyncNeedUpload"@.len() != "SettingSyncMtime"@.len());
}

proof fn lemma_name_server_setting_sync_end()
    ensures
        parse_action_name("SettingSyncEnd"@) == Some(Action::Server(ServerAction::SettingSyncEnd)),
{
    broadcast use vstd::string::group_string_axioms;

    reveal_strlit("SettingSyncEnd");
    reveal_strlit("Authorization");
    assert("SettingSyncEnd"@.len() != "Authorization"@.len());
    reveal_strlit("ClientInfo");
    assert("SettingSyncEnd"@.len() != "ClientInfo"@.len());
    reveal_strlit("NoteSync");
    assert("SettingSyncEnd"@.len() != "NoteSync"@.len());
    reveal_strlit("NoteModify");
    assert("SettingSyncEnd"@.len() != "NoteModify"@.len());
    reveal_strlit("NoteDelete");
    assert("SettingSyncEnd"@.len() != "NoteDelete"@.len());
    reveal_strlit("NoteRename");
    assert("SettingSyncEnd"@.len() != "NoteRename"@.len());
    reveal_strlit("NoteCheck");
    assert("SettingSyncEnd"@.len() != "NoteCheck"@.len());
    reveal_strlit("NoteRePush");
    assert("SettingSyncEnd"@.len() != "NoteRePush"@.len());
    reveal_strlit("FileSync");
    assert("SettingSyncEnd"@.len() != "FileSync"@.len());
    reveal_strlit("FileUploadCheck");
    assert("SettingSyncEnd"@.len() != "FileUploadCheck"@.len());
    reveal_strlit("FileDelete");
    assert("SettingSyncEnd"@.len() != "FileDelete"@.len());
    reveal_strlit("FileChunkDownload");
    assert("SettingSyncEnd"@.len() != "FileChunkDownload"@.len());
    reveal_strlit("FolderSync");
    assert("SettingSyncEnd"@.len() != "FolderSync"@.len());
    reveal_strlit("FolderModify");
    assert("SettingSyncEnd"@.len() != "FolderModify"@.len());
    reveal_strlit("FolderDelete");
    assert("SettingSyncEnd"@.len() != "FolderDelete"@.len());
    reveal_strlit("FolderRename");
    assert("SettingSyncEnd"@.len() != "FolderRename"@.len());
    reveal_strlit("SettingSync");
    assert("SettingSyncEnd"@.len() != "SettingSync"@.len());
    reveal_strlit("SettingModify");
    assert("SettingSyncEnd"@.len() != "SettingModify"@.len());
    reveal_strlit("SettingDelete");
    assert("SettingSyncEnd"@.len() != "SettingDelete"@.len());
    reveal_strlit("NoteSyncEnd");
    assert("SettingSyncEnd"@.len() != "NoteSyncEnd"@.len());
    reveal_strlit("NoteSyncModify");
    assert("SettingSyncEnd"@[0] != "NoteSyncModify"@[0]);
    reveal_strlit("NoteSyncDelete");
    assert("SettingSyncEnd"@[0] != "NoteSyncDelete"@[0]);
    reveal_strlit("NoteSyncRename");
    assert("SettingSyncEnd"@[0] != "NoteSyncRename"@[0]);
    reveal_strlit("NoteSyncMtime");
    assert("SettingSyncEnd"@.len() != "NoteSyncMtime"@.len());
    reveal_strlit("NoteSyncNeedPush");
    assert("SettingSyncEnd"@.len() != "NoteSyncNeedPush"@.len());
    reveal_strlit("NoteModifyAck");
    assert("SettingSyncEnd"@.len() != "NoteModifyAck"@.len());
    reveal_strlit("NoteDeleteAck");
    assert("SettingSyncEnd"@.len() != "NoteDeleteAck"@.len());
    reveal_strlit("FileSyncUpdate");
    assert("SettingSyncEnd"@[0] != "FileSyncUpdate"@[0]);
    reveal_strlit("FileSyncDelete");
    assert("SettingSyncEnd"@[0] != "FileSyncDelete"@[0]);
    reveal_strlit("FileSyncRename");
    assert("SettingSyncEnd"@[0] != "FileSyncRename"@[0]);
    reveal_strlit("FileSyncMtime");
    assert("SettingSyncEnd"@.len() != "FileSyncMtime"@.len());
    reveal_strlit("FileSyncChunkDownload");
    assert("SettingSyncEnd"@.len() != "FileSyncChunkDownload"@.len());
    reveal_strlit("FileUpload");
    assert("SettingSyncEnd"@.len() != "FileUpload"@.len());
    reveal_strlit("FileUploadAck");
    assert("SettingSyncEnd"@.len() != "FileUploadAck"@.len());
    reveal_strlit("FileDeleteAck");
    assert("SettingSyncEnd"@.len() != "FileDeleteAck"@.len());
    reveal_strlit("FileSyncEnd");
    assert("SettingSyncEnd"@.len() != "FileSyncEnd"@.len());
    reveal_strlit("SettingSyncModify");
    assert("SettingSyncEnd"@.len() != "SettingSyncModify"@.len());
    reveal_strlit("SettingSyncDelete");
    assert("SettingSyncEnd"@.len() != "SettingSyncDelete"@.len());
    reveal_strlit("SettingSyncRename");
    assert("SettingSyncEnd"@.len() != "SettingSyncRename"@.len());
    reveal_strlit("SettingSyncMtime");
    assert("SettingSyncEnd"@.len() != "SettingSyncMtime"@.len());
    reveal_strlit("SettingSyncNeedUpload");
    assert("SettingSyncEnd"@.len() != "SettingSyncNeedUpload"@.len());
}

proof fn lemma_name_server_setting_modify_ack()
    ensures
        parse_action_name("SettingModifyAck"@) == Some(Action::Server(ServerAction::SettingModifyAck)),
{
    broadcast use vstd::string::group_string_axioms;

    reveal_strlit("SettingModifyAck");
    reveal_strlit("Authorization");
    assert("SettingModifyAck"@.len() != "Authorization"@.len());
    reveal_strlit("ClientInfo");
    assert("SettingModifyAck"@.len() != "ClientInfo"@.len());
    reveal_strlit("NoteSync");
    assert("SettingModifyAck"@.len() != "NoteSync"@.len());
    reveal_strlit("NoteModify");
    assert("SettingModifyAck"@.len() != "NoteModify"@.len());
    reveal_strlit("NoteDelete");
    assert("SettingModifyAck"@.len() != "NoteDelete"@.len());
    reveal_strlit("NoteRename");
    assert("SettingModifyAck"@.len() != "NoteRename"@.len());
    reveal_strlit("NoteCheck");
    assert("SettingModifyAck"@.len() != "NoteCheck"@.len());
    reveal_strlit("NoteRePush");
    assert("SettingModifyAck"@.len() != "NoteRePush"@.len());
    reveal_strlit("FileSync");
    assert("SettingModifyAck"@.len() != "FileSync"@.len());
    reveal_strlit("FileUploadCheck");
    assert("SettingModifyAck"@.len() != "FileUploadCheck"@.len());
    reveal_strlit("FileDelete");
    assert("SettingModifyAck"@.len() != "FileDelete"@.len());
    reveal_strlit("FileChunkDownload");
    assert("SettingModifyAck"@.len() != "FileChunkDownload"@.len());
    reveal_strlit("FolderSync");
    assert("SettingModifyAck"@.len() != "FolderSync"@.len());
    reveal_strlit("FolderModify");
    assert("SettingModifyAck"@.len() != "FolderModify"@.len());
    reveal_strlit("FolderDelete");
    assert("SettingModifyAck"@.len() != "FolderDelete"@.len());
    reveal_strlit("FolderRename");
    assert("SettingModifyAck"@.len() != "FolderRename"@.len());
    reveal_strlit("SettingSync");
    assert("SettingModifyAck"@.len() != "SettingSync"@.len());
    reveal_strlit("SettingModify");
    assert("SettingModifyAck"@.len() != "SettingModify"@.len());
    reveal_strlit("SettingDelete");
    assert("SettingModifyAck"@.len() != "SettingDelete"@.len());
    reveal_strlit("NoteSyncEnd");
    assert("SettingModifyAck"@.len() != "NoteSyncEnd"@.len());
    reveal_strlit("NoteSyncModify");
    assert("SettingModifyAck"@.len() != "NoteSyncModify"@.len());
    reveal_strlit("NoteSyncDelete");
    assert("SettingModifyAck"@.len() != "NoteSyncDelete"@.len());
    reveal_strlit("NoteSyncRename");
    assert("SettingModifyAck"@.len() != "NoteSyncRename"@.len());
    reveal_strlit("NoteSyncMtime");
    assert("SettingModifyAck"@.len() != "NoteSyncMtime"@.len());
    reveal_strlit("NoteSyncNeedPush");
    assert("SettingModifyAck"@[0] != "NoteSyncNeedPush"@[0]);
    reveal_strlit("NoteModifyAck");
    assert("SettingModifyAck"@.len() != "NoteModifyAck"@.len());
    reveal_strlit("NoteDeleteAck");
    assert("SettingModifyAck"@.len() != "NoteDeleteAck"@.len());
    reveal_strlit("FileSyncUpdate");
    assert("SettingModifyAck"@.len() != "FileSyncUpdate"@.len());
    reveal_strlit("FileSyncDelete");
    assert("SettingModifyAck"@.len() != "FileSyncDelete"@.len());
    reveal_strlit("FileSyncRename");
    assert("SettingModifyAck"@.len() != "FileSyncRename"@.len());
    reveal_strlit("FileSyncMtime");
    assert("SettingModifyAck"@.len() != "FileSyncMtime"@.len());
    reveal_strlit("FileSyncChunkDownload");
    assert("SettingModifyAck"@.len() != "FileSyncChunkDownload"@.len());
    reveal_strlit("FileUpload");
    assert("SettingModifyAck"@.len() != "FileUpload"@.len());
    reveal_strlit("FileUploadAck");
    assert("SettingModifyAck"@.len() != "FileUploadAck"@.len());
    reveal_strlit("FileDeleteAck");
    assert("SettingModifyAck"@.len() != "FileDeleteAck"@.len());
    reveal_strlit("FileSyncEnd");
    assert("SettingModifyAck"@.len() != "FileSyncEnd"@.len());
    reveal_strlit("SettingSyncModify");
    assert("SettingModifyAck"@.len() != "SettingSyncModify"@.len());
    reveal_strlit("SettingSyncDelete");
    assert("SettingModifyAck"@.len() != "SettingSyncDelete"@.len());
    reveal_strlit("SettingSyncRename");
    assert("SettingModifyAck"@.len() != "SettingSyncRename"@.len());
    reveal_strlit("SettingSyncMtime");
    assert("SettingModifyAck"@[7] != "SettingSyncMtime"@[7]);
    reveal_strlit("SettingSyncNeedUpload");
    assert("SettingModifyAck"@.len() != "SettingSyncNeedUpload"@.len());
    reveal_strlit("SettingSyncEnd");
    assert("SettingModifyAck"@.len() != "SettingSyncEnd"@.len());
}

proof fn lemma_name_server_folder_sync_modify()
    ensures
        parse_action_name("FolderSyncModify"@) == Some(Action::Server(ServerAction::FolderSyncModify)),
{
    broadcast use vstd::string::group_string_axioms;

    reveal_strlit("FolderSyncModify");
    reveal_strlit("Authorization");
    assert("FolderSyncModify"@.len() != "Authorization"@.len());
    reveal_strlit("ClientInfo");
    assert("FolderSyncModify"@.len() != "ClientInfo"@.len());
    reveal_strlit("NoteSync");
    assert("FolderSyncModify"@.len() != "NoteSync"@.len());
    reveal_strlit("NoteModify");
    assert("FolderSyncModify"@.len() != "NoteModify"@.len());
    reveal_strlit("NoteDelete");
    assert("FolderSyncModify"@.len() != "NoteDelete"@.len());
    reveal_strlit("NoteRename");
    assert("FolderSyncModify"@.len() != "NoteRename"@.len());
    reveal_strlit("NoteCheck");
    assert("FolderSyncModify"@.len() != "NoteCheck"@.len());
    reveal_strlit("NoteRePush");
    assert("FolderSyncModify"@.len() != "NoteRePush"@.len());
    reveal_strlit("FileSync");
    assert("FolderSyncModify"@.len() != "FileSync"@.len());
    reveal_strlit("FileUploadCheck");
    assert("FolderSyncModify"@.len() != "FileUploadCheck"@.len());
    reveal_strlit("FileDelete");
    assert("FolderSyncModify"@.len() != "FileDelete"@.len());
    reveal_strlit("FileChunkDownload");
    assert("FolderSyncModify"@.len() != "FileChunkDownload"@.len());
    reveal_strlit("FolderSync");
    assert("FolderSyncModify"@.len() != "FolderSync"@.len());
    reveal_strlit("FolderModify");
    assert("FolderSyncModify"@.len() != "FolderModify"@.len());
    reveal_strlit("FolderDelete");
    assert("FolderSyncModify"@.len() != "FolderDelete"@.len());
    reveal_strlit("FolderRename");
    assert("FolderSyncModify"@.len() != "FolderRename"@.len());
    reveal_strlit("SettingSync");
    assert("FolderSyncModify"@.len() != "SettingSync"@.len());
    reveal_strlit("SettingModify");
    assert("FolderSyncModify"@.len() != "SettingModify"@.len());
    reveal_strlit("SettingDelete");
    assert("FolderSyncModify"@.len() != "SettingDelete"@.len());
    reveal_strlit("NoteSyncEnd");
    assert("FolderSyncModify"@.len() != "NoteSyncEnd"@.len());
    reveal_strlit("NoteSyncModify");
    assert("FolderSyncModify"@.len() != "NoteSyncModify"@.len());
    reveal_strlit("NoteSyncDelete");
    assert("FolderSyncModify"@.len() != "NoteSyncDelete"@.len());
    reveal_strlit("NoteSyncRename");
    assert("FolderSyncModify"@.len() != "NoteSyncRename"@.len());
    reveal_strlit("NoteSyncMtime");
    assert("FolderSyncModify"@.len() != "NoteSyncMtime"@.len());
    reveal_strlit("NoteSyncNeedPush");
    assert("FolderSyncModify"@[0] != "NoteSyncNeedPush"@[0]);
    reveal_strlit("NoteModifyAck");
    assert("FolderSyncModify"@.len() != "NoteModifyAck"@.len());
    reveal_strlit("NoteDeleteAck");
    assert("FolderSyncModify"@.len() != "NoteDeleteAck"@.len());
    reveal_strlit("FileSyncUpdate");
    assert("FolderSyncModify"@.len() != "FileSyncUpdate"@.len());
    reveal_strlit("FileSyncDelete");
    assert("FolderSyncModify"@.len() != "FileSyncDelete"@.len());
    reveal_strlit("FileSyncRename");
    assert("FolderSyncModify"@.len() != "FileSyncRename"@.len());
    reveal_strlit("FileSyncMtime");
    assert("FolderSyncModify"@.len() != "FileSyncMtime"@.len());
    reveal_strlit("FileSyncChunkDownload");
    assert("FolderSyncModify"@.len() != "FileSyncChunkDownload"@.len());
    reveal_strlit("FileUpload");
    assert("FolderSyncModify"@.len() != "FileUpload"@.len());
    reveal_strlit("FileUploadAck");
    assert("FolderSyncModify"@.len() != "FileUploadAck"@.len());
    reveal_strlit("FileDeleteAck");
    assert("FolderSyncModify"@.len() != "FileDeleteAck"@.len());
    reveal_strlit("FileSyncEnd");
    assert("FolderSyncModify"@.len() != "FileSyncEnd"@.len());
    reveal_strlit("SettingSyncModify");
    assert("FolderSyncModify"@.len() != "SettingSyncModify"@.len());
    reveal_strlit("SettingSyncDelete");
    assert("FolderSyncModify"@.len() != "SettingSyncDelete"@.len());
    reveal_strlit("SettingSyncRename");
    assert("FolderSyncModify"@.len() != "SettingSyncRename"@.len());
    reveal_strlit("SettingSyncMtime");
    assert("FolderSyncModify"@[0] != "SettingSyncMtime"@[0]);
    reveal_strlit("SettingSyncNeedUpload");
    assert("FolderSyncModify"@.len() != "SettingSyncNeedUpload"@.len());
    reveal_strlit("SettingSyncEnd");
    assert("FolderSyncModify"@.len() != "SettingSyncEnd"@.len());
    reveal_strlit("SettingModifyAck");
    assert("FolderSyncModify"@[0] != "SettingModifyAck"@[0]);
}

proof fn lemma_name_server_folder_sync_delete()
    ensures
        parse_action_name("FolderSyncDelete"@) == Some(Action::Server(ServerAction::FolderSyncDelete)),
{
    broadcast use vstd::string::group_string_axioms;

    reveal_strlit("FolderSyncDelete");
    reveal_strlit("Authorization");
    assert("FolderSyncDelete"@.len() != "Authorization"@.len());
    reveal_strlit("ClientInfo");
    assert("FolderSyncDelete"@.len() != "ClientInfo"@.len());
    reveal_strlit("NoteSync");
    assert("FolderSyncDelete"@.len() != "NoteSync"@.len());
    reveal_strlit("NoteModify");
    assert("FolderSyncDelete"@.len() != "NoteModify"@.len());
    reveal_strlit("NoteDelete");
    assert("FolderSyncDelete"@.len() != "NoteDelete"@.len());
    reveal_strlit("NoteRename");
    assert("FolderSyncDelete"@.len() != "NoteRename"@.len());
    reveal_strlit("NoteCheck");
    assert("FolderSyncDelete"@.len() != "NoteCheck"@.len());
    reveal_strlit("NoteRePush");
    assert("FolderSyncDelete"@.len() != "NoteRePush"@.len());
    reveal_strlit("FileSync");
    assert("FolderSyncDelete"@.len() != "FileSync"@.len());
    reveal_strlit("FileUploadCheck");
    assert("FolderSyncDelete"@.len() != "FileUploadCheck"@.len());
    reveal_strlit("FileDelete");
    assert("FolderSyncDelete"@.len() != "FileDelete"@.len());
    reveal_strlit("FileChunkDownload");
    assert("FolderSyncDelete"@.len() != "FileChunkDownload"@.len());
    reveal_strlit("FolderSync");
    assert("FolderSyncDelete"@.len() != "FolderSync"@.len());
    reveal_strlit("FolderModify");
    assert("FolderSyncDelete"@.len() != "FolderModify"@.len());
    reveal_strlit("FolderDelete");
    assert("FolderSyncDelete"@.len() != "FolderDelete"@.len());
    reveal_strlit("FolderRename");
    assert("FolderSyncDelete"@.len() != "FolderRename"@.len());
    reveal_strlit("SettingSync");
    assert("FolderSyncDelete"@.len() != "SettingSync"@.len());
    reveal_strlit("SettingModify");
    assert("FolderSyncDelete"@.len() != "SettingModify"@.len());
    reveal_strlit("SettingDelete");
    assert("FolderSyncDelete"@.len() != "SettingDelete"@.len());
    reveal_strlit("NoteSyncEnd");
    assert("FolderSyncDelete"@.len() != "NoteSyncEnd"@.len());
    reveal_strlit("NoteSyncModify");
    assert("FolderSyncDelete"@.len() != "NoteSyncModify"@.len());
    reveal_strlit("NoteSyncDelete");
    assert("FolderSyncDelete"@.len() != "NoteSyncDelete"@.len());
    reveal_strlit("NoteSyncRename");
    assert("FolderSyncDelete"@.len() != "NoteSyncRename"@.len());
    reveal_strlit("NoteSyncMtime");
    assert("FolderSyncDelete"@.len() != "NoteSyncMtime"@.len());
    reveal_strlit("NoteSyncNeedPush");
    assert("FolderSyncDelete"@[0] != "NoteSyncNeedPush"@[0]);
    reveal_strlit("NoteModifyAck");
    assert("FolderSyncDelete"@.len() != "NoteModifyAck"@.len());
    reveal_strlit("NoteDeleteAck");
    assert("FolderSyncDelete"@.len() != "NoteDeleteAck"@.len());
    reveal_strlit("FileSyncUpdate");
    assert("FolderSyncDelete"@.len() != "FileSyncUpdate"@.len());
    reveal_strlit("FileSyncDelete");
    assert("FolderSyncDelete"@.len() != "FileSyncDelete"@.len());
    reveal_strlit("FileSyncRename");
    assert("FolderSyncDelete"@.len() != "FileSyncRename"@.len());
    reveal_strlit("FileSyncMtime");
    assert("FolderSyncDelete"@.len() != "FileSyncMtime"@.len());
    reveal_strlit("FileSyncChunkDownload");
    assert("FolderSyncDelete"@.len() != "FileSyncChunkDownload"@.len());
    reveal_strlit("FileUpload");
    assert("FolderSyncDelete"@.len() != "FileUpload"@.len());
    reveal_strlit("FileUploadAck");
    assert("FolderSyncDelete"@.len() != "FileUploadAck"@.len());
    reveal_strlit("FileDeleteAck");
    assert("FolderSyncDelete"@.len() != "FileDeleteAck"@.len());
    reveal_strlit("FileSyncEnd");
    assert("FolderSyncDelete"@.len() != "FileSyncEnd"@.len());
    reveal_strlit("SettingSyncModify");
    assert("FolderSyncDelete"@.len() != "SettingSyncModify"@.len());
    reveal_strlit("SettingSyncDelete");
    assert("FolderSyncDelete"@.len() != "SettingSyncDelete"@.len());
    reveal_strlit("SettingSyncRename");
    assert("FolderSyncDelete"@.len() != "SettingSyncRename"@.len());
    reveal_strlit("SettingSyncMtime");
    assert("FolderSyncDelete"@[0] != "SettingSyncMtime"@[0]);
    reveal_strlit("SettingSyncNeedUpload");
    assert("FolderSyncDelete"@.len() != "SettingSyncNeedUpload"@.len());
    reveal_strlit("SettingSyncEnd");
    assert("FolderSyncDelete"@.len() != "SettingSyncEnd"@.len());
    reveal_strlit("SettingModifyAck");
    assert("FolderSyncDelete"@[0] != "SettingModifyAck"@[0]);
    reveal_strlit("FolderSyncModify");
    assert("FolderSyncDelete"@[10] != "FolderSyncModify"@[10]);
}

proof fn lemma_name_server_folder_sync_rename()
    ensures
        parse_action_name("FolderSyncRename"@) == Some(Action::Server(ServerAction::FolderSyncRename)),
{
    broadcast use vstd::string::group_string_axioms;

    reveal_strlit("FolderSyncRename");
    reveal_strlit("Authorization");
    assert("FolderSyncRename"@.len() != "Authorization"@.len());
    reveal_strlit("ClientInfo");
    assert("FolderSyncRename"@.len() != "ClientInfo"@.len());
    reveal_strlit("NoteSync");
    assert("FolderSyncRename"@.len() != "NoteSync"@.len());
    reveal_strlit("NoteModify");
    assert("FolderSyncRename"@.len() != "NoteModify"@.len());
    reveal_strlit("NoteDelete");
    assert("FolderSyncRename"@.len() != "NoteDelete"@.len());
    reveal_strlit("NoteRename");
    assert("FolderSyncRename"@.len() != "NoteRename"@.len());
    reveal_strlit("NoteCheck");
    assert("FolderSyncRename"@.len() != "NoteCheck"@.len());
    reveal_strlit("NoteRePush");
    assert("FolderSyncRename"@.len() != "NoteRePush"@.len());
    reveal_strlit("FileSync");
    assert("FolderSyncRename"@.len() != "FileSync"@.len());
    reveal_strlit("FileUploadCheck");
    assert("FolderSyncRename"@.len() != "FileUploadCheck"@.len());
    reveal_strlit("FileDelete");
    assert("FolderSyncRename"@.len() != "FileDelete"@.len());
    reveal_strlit("FileChunkDownload");
    assert("FolderSyncRename"@.len() != "FileChunkDownload"@.len());
    reveal_strlit("FolderSync");
    assert("FolderSyncRename"@.len() != "FolderSync"@.len());
    reveal_strlit("FolderModify");
    assert("FolderSyncRename"@.len() != "FolderModify"@.len());
    reveal_strlit("FolderDelete");
    assert("FolderSyncRename"@.len() != "FolderDelete"@.len());
    reveal_strlit("FolderRename");
    assert("FolderSyncRename"@.len() != "FolderRename"@.len());
    reveal_strlit("SettingSync");
    assert("FolderSyncRename"@.len() != "SettingSync"@.len());
    reveal_strlit("SettingModify");
    assert("FolderSyncRename"@.len() != "SettingModify"@.len());
    reveal_strlit("SettingDelete");
    assert("FolderSyncRename"@.len() != "SettingDelete"@.len());
    reveal_strlit("NoteSyncEnd");
    assert("FolderSyncRename"@.len() != "NoteSyncEnd"@.len());
    reveal_strlit("NoteSyncModify");
    assert("FolderSyncRename"@.len() != "NoteSyncModify"@.len());
    reveal_strlit("NoteSyncDelete");
    assert("FolderSyncRename"@.len() != "NoteSyncDelete"@.len());
    reveal_strlit("NoteSyncRename");
    assert("FolderSyncRename"@.len() != "NoteSyncRename"@.len());
    reveal_strlit("NoteSyncMtime");
    assert("FolderSyncRename"@.len() != "NoteSyncMtime"@.len());
    reveal_strlit("NoteSyncNeedPush");
    assert("FolderSyncRename"@[0] != "NoteSyncNeedPush"@[0]);
    reveal_strlit("NoteModifyAck");
    assert("FolderSyncRename"@.len() != "NoteModifyAck"@.len());
    reveal_strlit("NoteDeleteAck");
    assert("FolderSyncRename"@.len() != "NoteDeleteAck"@.len());
    reveal_strlit("FileSyncUpdate");
    assert("FolderSyncRename"@.len() != "FileSyncUpdate"@.len());
    reveal_strlit("FileSyncDelete");
    assert("FolderSyncRename"@.len() != "FileSyncDelete"@.len());
    reveal_strlit("FileSyncRename");
    assert("FolderSyncRename"@.len() != "FileSyncRename"@.len());
    reveal_strlit("FileSyncMtime");
    assert("FolderSyncRename"@.len() != "FileSyncMtime"@.len());
    reveal_strlit("FileSyncChunkDownload");
    assert("FolderSyncRename"@.len() != "FileSyncChunkDownload"@.len());
    reveal_strlit("FileUpload");
    assert("FolderSyncRename"@.len() != "FileUpload"@.len());
    reveal_strlit("FileUploadAck");
    assert("FolderSyncRename"@.len() != "FileUploadAck"@.len());
    reveal_strlit("FileDeleteAck");
    assert("FolderSyncRename"@.len() != "FileDeleteAck"@.len());
    reveal_strlit("FileSyncEnd");
    assert("FolderSyncRename"@.len() != "FileSyncEnd"@.len());
    reveal_strlit("SettingSyncModify");
    assert("FolderSyncRename"@.len() != "SettingSyncModify"@.len());
    reveal_strlit("SettingSyncDelete");
    assert("FolderSyncRename"@.len() != "SettingSyncDelete"@.len());
    reveal_strlit("SettingSyncRename");
    assert("FolderSyncRename"@.len() != "SettingSyncRename"@.len());
    reveal_strlit("SettingSyncMtime");
    assert("FolderSyncRename"@[0] != "SettingSyncMtime"@[0]);
    reveal_strlit("SettingSyncNeedUpload");
    assert("FolderSyncRename"@.len() != "SettingSyncNeedUpload"@.len());
    reveal_strlit("SettingSyncEnd");
    assert("FolderSyncRename"@.len() != "SettingSyncEnd"@.len());
    reveal_strlit("SettingModifyAck");
    assert("FolderSyncRename"@[0] != "SettingModifyAck"@[0]);
    reveal_strlit("FolderSyncModify");
    assert("FolderSyncRename"@[10] != "FolderSyncModify"@[10]);
    reveal_strlit("FolderSyncDelete");
    assert("FolderSyncRename"@[10] != "FolderSyncDelete"@[10]);
}

proof fn lemma_name_server_folder_sync_end()
    ensures
        parse_action_name("FolderSyncEnd"@) == Some(Action::Server(ServerAction::FolderSyncEnd)),
{
    broadcast use vstd::string::group_string_axioms;

    reveal_strlit("FolderSyncEnd");
    reveal_strlit("Authorization");
    assert("FolderSyncEnd"@[0] != "Authorization"@[0]);
    reveal_strlit("ClientInfo");
    assert("FolderSyncEnd"@.len() != "ClientInfo"@.len());
    reveal_strlit("NoteSync");
    assert("FolderSyncEnd"@.len() != "NoteSync"@.len());
    reveal_strlit("NoteModify");
    assert("FolderSyncEnd"@.len() != "NoteModify"@.len());
    reveal_strlit("NoteDelete");
    assert("FolderSyncEnd"@.len() != "NoteDelete"@.len());
    reveal_strlit("NoteRename");
    assert("FolderSyncEnd"@.len() != "NoteRename"@.len());
    reveal_strlit("NoteCheck");
    assert("FolderSyncEnd"@.len() != "NoteCheck"@.len());
    reveal_strlit("NoteRePush");
    assert("FolderSyncEnd"@.len() != "NoteRePush"@.len());
    reveal_strlit("FileSync");
    assert("FolderSyncEnd"@.len() != "FileSync"@.len());
    reveal_strlit("FileUploadCheck");
    assert("FolderSyncEnd"@.len() != "FileUploadCheck"@.len());
    reveal_strlit("FileDelete");
    assert("FolderSyncEnd"@.len() != "FileDelete"@.len());
    reveal_strlit("FileChunkDownload");
    assert("FolderSyncEnd"@.len() != "FileChunkDownload"@.len());
    reveal_strlit("FolderSync");
    assert("FolderSyncEnd"@.len() != "FolderSync"@.len());
    reveal_strlit("FolderModify");
    assert("FolderSyncEnd"@.len() != "FolderModify"@.len());
    reveal_strlit("FolderDelete");
    assert("FolderSyncEnd"@.len() != "FolderDelete"@.len());
    reveal_strlit("FolderRename");
    assert("FolderSyncEnd"@.len() != "FolderRename"@.len());
    reveal_strlit("SettingSync");
    assert("FolderSyncEnd"@.len() != "SettingSync"@.len());
    reveal_strlit("SettingModify");
    assert("FolderSyncEnd"@[0] != "SettingModify"@[0]);
    reveal_strlit("SettingDelete");
    assert("FolderSyncEnd"@[0] != "SettingDelete"@[0]);
    reveal_strlit("NoteSyncEnd");
    assert("FolderSyncEnd"@.len() != "NoteSyncEnd"@.len());
    reveal_strlit("NoteSyncModify");
    assert("FolderSyncEnd"@.len() != "NoteSyncModify"@.len());
    reveal_strlit("NoteSyncDelete");
    assert("FolderSyncEnd"@.len() != "NoteSyncDelete"@.len());
    reveal_strlit("NoteSyncRename");
    assert("FolderSyncEnd"@.len() != "NoteSyncRename"@.len());
    reveal_strlit("NoteSyncMtime");
    assert("FolderSyncEnd"@[0] != "NoteSyncMtime"@[0]);
    reveal_strlit("NoteSyncNeedPush");
    assert("FolderSyncEnd"@.len() != "NoteSyncNeedPush"@.len());
    reveal_strlit("NoteModifyAck");
    assert("FolderSyncEnd"@[0] != "NoteModifyAck"@[0]);
    reveal_strlit("NoteDeleteAck");
    assert("FolderSyncEnd"@[0] != "NoteDeleteAck"@[0]);
    reveal_strlit("FileSyncUpdate");
    assert("FolderSyncEnd"@.len() != "FileSyncUpdate"@.len());
    reveal_strlit("FileSyncDelete");
    assert("FolderSyncEnd"@.len() != "FileSyncDelete"@.len());
    reveal_strlit("FileSyncRename");
    assert("FolderSyncEnd"@.len() != "FileSyncRename"@.len());
    reveal_strlit("FileSyncMtime");
    assert("FolderSyncEnd"@[1] != "FileSyncMtime"@[1]);
    reveal_strlit("FileSyncChunkDownload");
    assert("FolderSyncEnd"@.len() != "FileSyncChunkDownload"@.len());
    reveal_strlit("FileUpload");
    assert("FolderSyncEnd"@.len() != "FileUpload"@.len());
    reveal_strlit("FileUploadAck");
    assert("FolderSyncEnd"@[1] != "FileUploadAck"@[1]);
    reveal_strlit("FileDeleteAck");
    assert("FolderSyncEnd"@[1] != "FileDeleteAck"@[1]);
    reveal_strlit("FileSyncEnd");
    assert("FolderSyncEnd"@.len() != "FileSyncEnd"@.len());
    reveal_strlit("SettingSyncModify");
    assert("FolderSyncEnd"@.len() != "SettingSyncModify"@.len());
    reveal_strlit("SettingSyncDelete");
    assert("FolderSyncEnd"@.len() != "SettingSyncDelete"@.len());
    reveal_strlit("SettingSyncRename");
    assert("FolderSyncEnd"@.len() != "SettingSyncRename"@.len());
    reveal_strlit("SettingSyncMtime");
    assert("FolderSyncEnd"@.len() != "SettingSyncMtime"@.len());
    reveal_strlit("SettingSyncNeedUpload");
    assert("FolderSyncEnd"@.len() != "SettingSyncNeedUpload"@.len());
    reveal_strlit("SettingSyncEnd");
    assert("FolderSyncEnd"@.len() != "SettingSyncEnd"@.len());
    reveal_strlit("SettingModifyAck");
    assert("FolderSyncEnd"@.len() != "SettingModifyAck"@.len());
    reveal_strlit("FolderSyncModify");
    assert("FolderSyncEnd"@.len() != "FolderSyncModify"@.len());
    reveal_strlit("FolderSyncDelete");
    assert("FolderSyncEnd"@.len() != "FolderSyncDelete"@.len());
    reveal_strlit("FolderSyncRename");
    assert("FolderSyncEnd"@.len() != "FolderSyncRename"@.len());
}

/// Distinct actions have distinct wire names, so a name read back yields the
/// action that was written.
pub proof fn lemma_action_name_roundtrip(a: Action)
    ensures
        parse_action_name(action_name(a)) == Some(a),
{
    match a {
        Action::Client(c) => match c {
            ClientAction::Authorization => lemma_name_client_authorization(),
            ClientAction::ClientInfo => lemma_name_client_client_info(),
            ClientAction::NoteSync => lemma_name_client_note_sync(),
            ClientAction::NoteModify => lemma_name_client_note_modify(),
            ClientAction::NoteDelete => lemma_name_client_note_delete(),
            ClientAction::NoteRename => lemma_name_client_note_rename(),
            ClientAction::NoteCheck => lemma_name_client_note_check(),
            ClientAction::NoteRePush => lemma_name_client_note_re_push(),
            ClientAction::FileSync => lemma_name_client_file_sync(),
            ClientAction::FileUploadCheck => lemma_name_client_file_upload_check(),
            ClientAction::FileDelete => lemma_name_client_file_delete(),
            ClientAction::FileChunkDownload => lemma_name_client_file_chunk_download(),
            ClientAction::FolderSync => lemma_name_client_folder_sync(),
            ClientAction::FolderModify => lemma_name_client_folder_modify(),
            ClientAction::FolderDelete => lemma_name_client_folder_delete(),
            ClientAction::FolderRename => lemma_name_client_folder_rename(),
            ClientAction::SettingSync => lemma_name_client_setting_sync(),
            ClientAction::SettingModify => lemma_name_client_setting_modify(),
            ClientAction::SettingDelete => lemma_name_client_setting_delete(),
        },
        Action::Server(v) => match v {
            ServerAction::NoteSyncEnd => lemma_name_server_note_sync_end(),
            ServerAction::NoteSyncModify => lemma_name_server_note_sync_modify(),
            ServerAction::NoteSyncDelete => lemma_name_server_note_sync_delete(),
            ServerAction::NoteSyncRename => lemma_name_server_note_sync_rename(),
            ServerAction::NoteSyncMtime => lemma_name_server_note_sync_mtime(),
            ServerAction::NoteSyncNeedPush => lemma_name_server_note_sync_need_push(),
            ServerAction::NoteModifyAck => lemma_name_server_note_modify_ack(),
            ServerAction::NoteDeleteAck => lemma_name_server_note_delete_ack(),
            ServerAction::FileSyncUpdate => lemma_name_server_file_sync_update(),
            ServerAction::FileSyncDelete => lemma_name_server_file_sync_delete(),
            ServerAction::FileSyncRename => lemma_name_server_file_sync_rename(),
            ServerAction::FileSyncMtime => lemma_name_server_file_sync_mtime(),
            ServerAction::FileSyncChunkDownload => lemma_name_server_file_sync_chunk_download(),
            ServerAction::FileUpload => lemma_name_server_file_upload(),
            ServerAction::FileUploadAck => lemma_name_server_file_upload_ack(),
            ServerAction::FileDeleteAck => lemma_name_server_file_delete_ack(),
            ServerAction::FileSyncEnd => lemma_name_server_file_sync_end(),
            ServerAction::SettingSyncModify => lemma_name_server_setting_sync_modify(),
            ServerAction::SettingSyncDelete => lemma_name_server_setting_sync_delete(),
            ServerAction::SettingSyncRename => lemma_name_server_setting_sync_rename(),
            ServerAction::SettingSyncMtime => lemma_name_server_setting_sync_mtime(),
            ServerAction::SettingSyncNeedUpload => lemma_name_server_setting_sync_need_upload(),
            ServerAction::SettingSyncEnd => lemma_name_server_setting_sync_end(),
            ServerAction::SettingModifyAck => lemma_name_server_setting_modify_ack(),
            ServerAction::FolderSyncModify => lemma_name_server_folder_sync_modify(),
            ServerAction::FolderSyncDelete => lemma_name_server_folder_sync_delete(),
            ServerAction::FolderSyncRename => lemma_name_server_folder_sync_rename(),
            ServerAction::FolderSyncEnd => lemma_name_server_folder_sync_end(),
        },
    }
}

} // verus!

verus! {

/// No action name contains the separator `|`.
pub proof fn lemma_action_name_has_no_separator(a: Action)
    ensures
        forall|i: int| 0 <= i < action_name(a).len() ==> action_name(a)[i] != '|',
{
    broadcast use vstd::string::group_string_axioms;

    match a {
        Action::Client(c) => match c {
            ClientAction::Authorization => {
                reveal_strlit("Authorization");
            },
            ClientAction::ClientInfo => {
                reveal_strlit("ClientInfo");
            },
            ClientAction::NoteSync => {
                reveal_strlit("NoteSync");
            },
            ClientAction::NoteModify => {
                reveal_strlit("NoteModify");
            },
            ClientAction::NoteDelete => {
                reveal_strlit("NoteDelete");
            },
            ClientAction::NoteRename => {
                reveal_strlit("NoteRename");
            },
            ClientAction::NoteCheck => {
                reveal_strlit("NoteCheck");
            },
            ClientAction::NoteRePush => {
                reveal_strlit("NoteRePush");
            },
            ClientAction::FileSync => {
                reveal_strlit("FileSync");
            },
            ClientAction::FileUploadCheck => {
                reveal_strlit("FileUploadCheck");
            },
            ClientAction::FileDelete => {
                reveal_strlit("FileDelete");
            },
            ClientAction::FileChunkDownload => {
                reveal_strlit("FileChunkDownload");
            },
            ClientAction::FolderSync => {
                reveal_strlit("FolderSync");
            },
            ClientAction::FolderModify => {
                reveal_strlit("FolderModify");
            },
            ClientAction::FolderDelete => {
                reveal_strlit("FolderDelete");
            },
            ClientAction::FolderRename => {
                reveal_strlit("FolderRename");
            },
            ClientAction::SettingSync => {
                reveal_strlit("SettingSync");
            },
            ClientAction::SettingModify => {
                reveal_strlit("SettingModify");
            },
            ClientAction::SettingDelete => {
                reveal_strlit("SettingDelete");
            },
        },
        Action::Server(v) => match v {
            ServerAction::NoteSyncEnd => {
                reveal_strlit("NoteSyncEnd");
            },
            ServerAction::NoteSyncModify => {
                reveal_strlit("NoteSyncModify");
            },
            ServerAction::NoteSyncDelete => {
                reveal_strlit("NoteSyncDelete");
            },
            ServerAction::NoteSyncRename => {
                reveal_strlit("NoteSyncRename");
            },
            ServerAction::NoteSyncMtime => {
                reveal_strlit("NoteSyncMtime");
            },
            ServerAction::NoteSyncNeedPush => {
                reveal_strlit("NoteSyncNeedPush");
            },
            ServerAction::NoteModifyAck => {
                reveal_strlit("NoteModifyAck");
            },
            ServerAction::NoteDeleteAck => {
                reveal_strlit("NoteDeleteAck");
            },
            ServerAction::FileSyncUpdate => {
                reveal_strlit("FileSyncUpdate");
            },
            ServerAction::FileSyncDelete => {
                reveal_strlit("FileSyncDelete");
            },
            ServerAction::FileSyncRename => {
                reveal_strlit("FileSyncRename");
            },
            ServerAction::FileSyncMtime => {
                reveal_strlit("FileSyncMtime");
            },
            ServerAction::FileSyncChunkDownload => {
                reveal_strlit("FileSyncChunkDownload");
            },
            ServerAction::FileUpload => {
                reveal_strlit("FileUpload");
            },
            ServerAction::FileUploadAck => {
                reveal_strlit("FileUploadAck");
            },
            ServerAction::FileDeleteAck => {
                reveal_strlit("FileDeleteAck");
            },
            ServerAction::FileSyncEnd => {
                reveal_strlit("FileSyncEnd");
            },
            ServerAction::SettingSyncModify => {
                reveal_strlit("SettingSyncModify");
            },
            ServerAction::SettingSyncDelete => {
                reveal_strlit("SettingSyncDelete");
            },
            ServerAction::SettingSyncRename => {
                reveal_strlit("SettingSyncRename");
            },
            ServerAction::SettingSyncMtime => {
                reveal_strlit("SettingSyncMtime");
            },
            ServerAction::SettingSyncNeedUpload => {
                reveal_strlit("SettingSyncNeedUpload");
            },
            ServerAction::SettingSyncEnd => {
                reveal_strlit("SettingSyncEnd");
            },
            ServerAction::SettingModifyAck => {
                reveal_strlit("SettingModifyAck");
            },
            ServerAction::FolderSyncModify => {
                reveal_strlit("FolderSyncModify");
            },
            ServerAction::FolderSyncDelete => {
                reveal_strlit("FolderSyncDelete");
            },
            ServerAction::FolderSyncRename => {
                reveal_strlit("FolderSyncRename");
            },
            ServerAction::FolderSyncEnd => {
                reveal_strlit("FolderSyncEnd");
            },
        },
    }
}

} // verus!
