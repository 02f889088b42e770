use fns_cli::config::{watcher_patterns, AppConfig};
use fns_cli::hash::{hash_bytes, hash_content};
use fns_cli::protocol::{build_binary_chunk, Action, BinaryChunkParser, ChunkReassembler, ServerAction};
use fns_cli::state::SyncState;
use fns_cli::sync::coordinator::{route_server_action, server_error, PushOp, ServerRoute, SyncCoordinator, SyncResult};
use fns_cli::sync::file::{
    base64_decode, classify_file_action, upload_frames_for, DeleteStep, DownloadStart, FileMessage, FileSync, UpdateStep,
};
use fns_cli::sync::folder::FolderSync;
use fns_cli::sync::note::{Apply, NoteSync, StableRead};
use fns_cli::sync::requests::{file_check, folder_check, note_check, setting_check};
use fns_cli::sync::setting::SettingSync;
use fns_cli::watcher::WatchEvent;

fn patterns(p: &[&str]) -> Vec<String> {
    p.iter().map(|s| s.to_string()).collect()
}

fn coordinator(config: AppConfig) -> SyncCoordinator {
    SyncCoordinator::new(config, "/vault".to_string(), SyncState::default())
}

#[test]
fn test_sync_result_default() {
    let result = SyncResult::default();
    assert_eq!(result.notes_synced, 0);
    assert_eq!(result.files_synced, 0);
    assert_eq!(result.settings_synced, 0);
    assert_eq!(result.folders_synced, 0);
    assert!(result.errors.is_empty());
    assert!(!result.has_errors());
    assert_eq!(result.total_synced(), 0);
}

#[test]
fn test_sync_result_with_errors() {
    let mut result = SyncResult::new();
    result.notes_synced = 5;
    result.files_synced = 3;
    result.errors.push("Test error".to_string());

    assert!(result.has_errors());
    assert_eq!(result.total_synced(), 8);
    assert_eq!(result.errors.len(), 1);
}

#[test]
fn coordinator_test_is_excluded() {
    let mut config = AppConfig::default();
    config.sync.exclude_patterns = patterns(&[".git/**", ".trash/**", "*.tmp"]);
    let coordinator = coordinator(config);

    assert!(coordinator.is_excluded(".git/config"));
    assert!(coordinator.is_excluded(".git/objects/abc"));
    assert!(coordinator.is_excluded(".trash/old.md"));
    assert!(coordinator.is_excluded(".DS_Store"));
    assert!(coordinator.is_excluded("notes/.DS_Store"));
    assert!(coordinator.is_excluded(".tmpwEYnim"));
    assert!(coordinator.is_excluded("notes/temp.tmp"));
    assert!(coordinator.is_excluded("notes/hello.md.tmp.w_3o8rmv"));
    assert!(coordinator.is_excluded("notes/hello.md.~#0"));
    assert!(!coordinator.is_excluded("notes/hello.md"));
    assert!(!coordinator.is_excluded(".obsidian/app.json"));
}

#[test]
fn test_config_paths_excluded_when_config_sync_disabled() {
    let mut config = AppConfig::default();
    config.sync.sync_config = false;
    let coordinator = coordinator(config);

    assert!(coordinator.is_excluded(".obsidian/plugins/fast-note-sync/data.json"));
    assert!(coordinator.is_excluded(".agents/config.yaml"));
    assert!(!coordinator.is_excluded("notes/hello.md"));
}

#[test]
fn test_ignore_file() {
    let mut coordinator = coordinator(AppConfig::default());

    assert!(!coordinator.is_ignored("test.md"));

    coordinator.ignore_file("test.md");
    assert!(coordinator.is_ignored("test.md"));

    coordinator.ignore_file("another.md");
    assert!(coordinator.is_ignored("test.md"));
    assert!(coordinator.is_ignored("another.md"));
}

#[test]
fn test_unignore_file() {
    let mut coordinator = coordinator(AppConfig::default());

    coordinator.ignore_file("test.md");
    assert!(coordinator.is_ignored("test.md"));

    coordinator.unignore_file("test.md");
    assert!(!coordinator.is_ignored("test.md"));

    coordinator.unignore_file("nonexistent.md");
    assert!(!coordinator.is_ignored("nonexistent.md"));
}

#[test]
fn test_ignored_file_not_processed() {
    let mut coordinator = coordinator(AppConfig::default());

    coordinator.ignore_file("notes/test.md");

    assert!(coordinator.is_ignored("notes/test.md"));
    assert!(!coordinator.is_ignored("notes/other.md"));
}

#[test]
fn test_move_both_excluded() {
    let mut config = AppConfig::default();
    config.sync.exclude_patterns = patterns(&[".git/**", ".trash/**"]);
    let coordinator = coordinator(config);

    let old_excluded = coordinator.is_excluded(".git/config");
    let new_excluded = coordinator.is_excluded(".trash/config");

    assert!(old_excluded, "Old path should be excluded");
    assert!(new_excluded, "New path should be excluded");
    assert!(old_excluded && new_excluded, "Both excluded - no action needed");
}

#[test]
fn test_move_from_included_to_excluded() {
    let mut config = AppConfig::default();
    config.sync.exclude_patterns = patterns(&[".trash/**"]);
    let coordinator = coordinator(config);

    let old_excluded = coordinator.is_excluded("notes/hello.md");
    let new_excluded = coordinator.is_excluded(".trash/hello.md");

    assert!(!old_excluded, "Old path should be included");
    assert!(new_excluded, "New path should be excluded");
    assert!(!old_excluded && new_excluded, "Move from included to excluded - should delete old");
}

#[test]
fn test_move_from_excluded_to_included() {
    let mut config = AppConfig::default();
    config.sync.exclude_patterns = patterns(&[".trash/**"]);
    let coordinator = coordinator(config);

    let old_excluded = coordinator.is_excluded(".trash/restored.md");
    let new_excluded = coordinator.is_excluded("notes/restored.md");

    assert!(old_excluded, "Old path should be excluded");
    assert!(!new_excluded, "New path should be included");
    assert!(old_excluded && !new_excluded, "Move from excluded to included - should upload new");
}

#[test]
fn test_move_both_included() {
    let mut config = AppConfig::default();
    config.sync.exclude_patterns = patterns(&[".trash/**"]);
    let coordinator = coordinator(config);

    let old_excluded = coordinator.is_excluded("notes/old-name.md");
    let new_excluded = coordinator.is_excluded("notes/new-name.md");

    assert!(!old_excluded, "Old path should be included");
    assert!(!new_excluded, "New path should be included");
    assert!(!old_excluded && !new_excluded, "Both included - should push rename");
}

#[test]
fn test_move_boundary_with_extension_exclusion() {
    let mut config = AppConfig::default();
    config.sync.exclude_patterns = patterns(&["*.tmp", "*.bak"]);
    let coordinator = coordinator(config);

    let old_excluded = coordinator.is_excluded("notes/file.md");
    let new_excluded = coordinator.is_excluded("notes/file.tmp");
    let temp_suffix_excluded = coordinator.is_excluded("notes/file.md.tmp.w_3o8rmv");
    let editor_temp_excluded = coordinator.is_excluded("notes/file.md.~#0");

    assert!(!old_excluded, "Old .md file should be included");
    assert!(new_excluded, "New .tmp file should be excluded");
    assert!(temp_suffix_excluded, "New .tmp.* file should be excluded");
    assert!(editor_temp_excluded, "New .~# file should be excluded");
    assert!(!old_excluded && new_excluded, "Move from .md to .tmp - should delete old");
}

#[test]
fn plan_watch_event_routes_by_engine() {
    let mut config = AppConfig::default();
    config.sync.exclude_patterns = patterns(&[".trash/**"]);
    let coordinator = coordinator(config);

    let ops = coordinator.plan_watch_event(&WatchEvent::Modified("/vault/notes/a.md".to_string())).unwrap();
    assert_eq!(ops, vec![PushOp::NoteModify("notes/a.md".to_string())]);

    let ops = coordinator.plan_watch_event(&WatchEvent::Created("/vault/img/p.png".to_string())).unwrap();
    assert_eq!(ops, vec![PushOp::FileUpload("img/p.png".to_string())]);

    let ops = coordinator.plan_watch_event(&WatchEvent::Modified("/vault/.obsidian/app.json".to_string())).unwrap();
    assert_eq!(ops, vec![PushOp::SettingModify(".obsidian/app.json".to_string())]);

    let ops = coordinator.plan_watch_event(&WatchEvent::Deleted("/vault/notes/a.md".to_string())).unwrap();
    assert_eq!(ops, vec![PushOp::NoteDelete("notes/a.md".to_string())]);

    let ops = coordinator.plan_watch_event(&WatchEvent::Modified("/vault/.trash/a.md".to_string())).unwrap();
    assert!(ops.is_empty());

    assert!(coordinator.plan_watch_event(&WatchEvent::Modified("/elsewhere/a.md".to_string())).is_err());
}

#[test]
fn plan_watch_event_moves() {
    let mut config = AppConfig::default();
    config.sync.exclude_patterns = patterns(&[".trash/**"]);
    let coordinator = coordinator(config);

    let moved = |from: &str, to: &str| WatchEvent::Moved { from: from.to_string(), to: to.to_string() };

    let ops = coordinator.plan_watch_event(&moved("/vault/notes/old.md", "/vault/notes/new.md")).unwrap();
    assert_eq!(
        ops,
        vec![PushOp::NoteRename { new_path: "notes/new.md".to_string(), old_path: "notes/old.md".to_string() }]
    );

    let ops = coordinator.plan_watch_event(&moved("/vault/notes/hello.md", "/vault/.trash/hello.md")).unwrap();
    assert_eq!(ops, vec![PushOp::NoteDelete("notes/hello.md".to_string())]);

    let ops = coordinator.plan_watch_event(&moved("/vault/.trash/r.md", "/vault/notes/r.md")).unwrap();
    assert_eq!(ops, vec![PushOp::NoteModify("notes/r.md".to_string())]);

    let ops = coordinator.plan_watch_event(&moved("/vault/.trash/a.md", "/vault/.trash/b.md")).unwrap();
    assert!(ops.is_empty());

    let ops = coordinator.plan_watch_event(&moved("/vault/a.png", "/vault/b.png")).unwrap();
    assert_eq!(ops, vec![PushOp::FileDelete("a.png".to_string()), PushOp::FileUpload("b.png".to_string())]);
}

#[test]
fn plan_watch_event_skips_ignored() {
    let mut coordinator = coordinator(AppConfig::default());
    coordinator.ignore_file("notes/a.md");
    let ops = coordinator.plan_watch_event(&WatchEvent::Modified("/vault/notes/a.md".to_string())).unwrap();
    assert!(ops.is_empty());
}

#[test]
fn coordinator_state_path_and_delay() {
    let coordinator = coordinator(AppConfig::default());
    assert_eq!(coordinator.state_path, "/vault/.fns_state.json");
    assert_eq!(coordinator.reconnect_delay(1), Some(3));
    assert_eq!(coordinator.reconnect_delay(16), None);
}

#[test]
fn server_routes() {
    assert_eq!(route_server_action(Action::Server(ServerAction::NoteSyncModify)), ServerRoute::NoteModify);
    assert_eq!(route_server_action(Action::Server(ServerAction::FileUploadAck)), ServerRoute::FileUploadAck);
    assert_eq!(route_server_action(Action::Server(ServerAction::NoteSyncEnd)), ServerRoute::Ignore);
}

#[test]
fn server_error_detection() {
    assert_eq!(server_error("{\"code\":500,\"message\":\"boom\"}"), Some((500, "boom".to_string())));
    assert_eq!(server_error("NoteModify|{}"), None);
    assert_eq!(server_error("{\"data\":1}"), None);
}

#[test]
fn test_is_config_dir() {
    let sync = FolderSync::new(
        "/vault".to_string(),
        SyncState::default(),
        "test".to_string(),
        patterns(&[".obsidian", ".agents"]),
    );

    assert!(sync.is_config_dir(".obsidian"));
    assert!(sync.is_config_dir(".agents"));
    assert!(sync.is_config_dir(".obsidian/themes"));
    assert!(sync.is_config_dir(".agents/config"));
    assert!(!sync.is_config_dir("notes"));
    assert!(!sync.is_config_dir("folder/subfolder"));
    assert!(!sync.is_config_dir("regular-dir"));
}

#[test]
fn test_handle_folder_create() {
    let sync = FolderSync::new("/vault".to_string(), SyncState::default(), "test".to_string(), patterns(&[".obsidian"]));
    assert!(sync.should_apply("notes/project"));
}

#[test]
fn test_handle_folder_create_config_dir_skipped() {
    let sync = FolderSync::new("/vault".to_string(), SyncState::default(), "test".to_string(), patterns(&[".obsidian"]));
    assert!(!sync.should_apply(".obsidian/themes"));
}

#[test]
fn test_handle_folder_rename_missing_old_creates_new() {
    let sync = FolderSync::new("/vault".to_string(), SyncState::default(), "test".to_string(), vec![]);
    assert!(sync.should_rename("nonexistent", "created-folder"));
    assert!(!sync.should_rename("", "created-folder"));
}

#[test]
fn test_is_config_path() {
    let sync = NoteSync::new("/vault".to_string(), SyncState::default(), "test".to_string(), vec![]);

    assert!(sync.is_config_path(".obsidian/app.json"));
    assert!(sync.is_config_path(".agents/config.yaml"));
    assert!(sync.is_config_path(".obsidian/themes/theme.css"));
    assert!(!sync.is_config_path("notes/hello.md"));
    assert!(!sync.is_config_path("folder/note.md"));
}

#[test]
fn note_test_is_excluded() {
    let sync = NoteSync::new(
        "/vault".to_string(),
        SyncState::default(),
        "test".to_string(),
        patterns(&[".git/**", ".trash/**", "*.tmp"]),
    );

    assert!(sync.is_excluded(".git/config"));
    assert!(sync.is_excluded(".git/objects/abc"));
    assert!(sync.is_excluded(".trash/old.md"));
    assert!(sync.is_excluded("notes/temp.tmp"));
    assert!(sync.is_excluded("notes/hello.md.tmp.w_3o8rmv"));
    assert!(sync.is_excluded("notes/hello.md.~#0"));
    assert!(!sync.is_excluded("notes/hello.md"));
    assert!(!sync.is_excluded(".obsidian/app.json"));
}

#[test]
fn test_echo_suppression() {
    let mut sync = NoteSync::new("/vault".to_string(), SyncState::default(), "test".to_string(), vec![]);

    sync.note_written("notes/hello.md", "12345");

    assert_eq!(sync.echo_hash("notes/hello.md"), Some(&"12345".to_string()));
    assert_eq!(sync.on_note_modify("notes/hello.md", "12345"), Apply::EchoSuppressed);
    assert_eq!(sync.echo_hash("notes/hello.md"), None);
}

#[test]
fn note_delete_echo_and_marker() {
    let mut sync = NoteSync::new("/vault".to_string(), SyncState::default(), "test".to_string(), vec![]);
    sync.delete_pushed("notes/gone.md");
    assert_eq!(sync.echo_hash("notes/gone.md"), Some(&"__deleted__".to_string()));
    assert_eq!(sync.on_note_delete("notes/gone.md"), Apply::EchoSuppressed);
    assert_eq!(sync.echo_hash("notes/gone.md"), None);
    assert_eq!(sync.on_note_delete("notes/gone.md"), Apply::Proceed);
    assert_eq!(sync.on_note_modify("", "h"), Apply::Skip);
}

#[test]
fn note_modify_after_deletion_marker_proceeds() {
    let mut sync = NoteSync::new("/vault".to_string(), SyncState::default(), "test".to_string(), vec![]);
    sync.note_deleted("a.md");
    assert_eq!(sync.on_note_modify("a.md", "h1"), Apply::Proceed);
    assert_eq!(sync.echo_hash("a.md"), None);
    assert!(sync.on_note_rename("a.md", "b.md"));
    assert_eq!(sync.echo_hash("a.md"), Some(&"__deleted__".to_string()));
    assert!(!sync.on_note_rename("a.md", ""));
}

#[test]
fn note_push_decisions() {
    let mut sync = NoteSync::new("/vault".to_string(), SyncState::default(), "test".to_string(), vec![]);
    assert!(sync.should_push_modify("a.md", "h", false));
    sync.modify_pushed("a.md", "h");
    assert!(!sync.should_push_modify("a.md", "h", false));
    assert!(sync.should_push_modify("a.md", "h", true));
    assert!(sync.should_push_modify("a.md", "other", false));
    assert!(NoteSync::should_apply_mtime("a.md", 5));
    assert!(!NoteSync::should_apply_mtime("a.md", 0));
}

#[test]
fn note_sync_end_and_counts() {
    let mut sync = NoteSync::new("/vault".to_string(), SyncState::default(), "test".to_string(), vec![]);
    assert!(!sync.is_sync_complete());
    sync.handle_sync_end(77, 1, 1, 0);
    assert_eq!(sync.pending_last_time(), 77);
    assert!(!sync.is_sync_complete());
    sync.count_modify();
    assert!(!sync.is_sync_complete());
    sync.count_delete();
    assert!(sync.is_sync_complete());
    assert_eq!(sync.synced_count(), 2);
    sync.reset_counters();
    assert!(!sync.is_sync_complete());
}

#[test]
fn test_sync_state_default() {
    let state = SyncState::default();
    assert_eq!(state.last_note_sync_time, 0);
    assert_eq!(state.last_file_sync_time, 0);
    assert_eq!(state.last_setting_sync_time, 0);
}

#[test]
fn test_config_path_detection() {
    let sync = SettingSync::new("/vault".to_string(), patterns(&[".obsidian", ".agents"]), true, "test".to_string());

    assert!(sync.is_config_path(".obsidian/app.json"));
    assert!(sync.is_config_path(".agents/config.yaml"));
    assert!(sync.is_config_path(".other/file.txt"));
    assert!(!sync.is_config_path("notes/hello.md"));
    assert!(!sync.is_config_path("regular.txt"));
}

#[test]
fn test_config_path_sync_config_disabled() {
    let sync = SettingSync::new("/vault".to_string(), patterns(&[".obsidian"]), false, "test".to_string());

    assert!(sync.is_config_path(".obsidian/app.json"));
    assert!(!sync.is_config_path(".other/file.txt"));
    assert!(!sync.is_config_path("notes/hello.md"));
}

#[test]
fn test_excluded_paths() {
    let sync = SettingSync::new("/vault".to_string(), patterns(&[".obsidian"]), true, "test".to_string());

    assert!(sync.is_excluded(".git/config"));
    assert!(sync.is_excluded(".trash/old.md"));
    assert!(!sync.is_excluded(".obsidian/app.json"));
    assert!(!sync.is_excluded("notes/hello.md"));
}

#[test]
fn setting_text_detection() {
    assert!(SettingSync::is_text_file("test.txt", b"Hello, world!"));
    assert!(!SettingSync::is_text_file("test.png", &[0x89, 0x50, 0x4E, 0x47]));
    assert!(!SettingSync::is_text_file("test.dat", &[0x00, 0x01, 0x02, 0x03]));
    assert!(SettingSync::is_text_file("config.json", br#"{"key": "value"}"#));
}

#[test]
fn setting_echo_roundtrip() {
    let mut sync = SettingSync::new("/vault".to_string(), patterns(&[".obsidian"]), true, "test".to_string());
    let hash = sync.plan_push_modify(".obsidian/app.json", "{}", false).unwrap();
    sync.modify_pushed(".obsidian/app.json", hash.as_str());
    assert_eq!(sync.plan_push_modify(".obsidian/app.json", "{}", false), None);
    assert!(sync.plan_push_modify(".obsidian/app.json", "{}", true).is_some());
    assert!(sync.plan_push_modify(".obsidian/app.json", "{ }", false).is_some());
}

#[test]
fn file_engine_decisions() {
    let mut sync = FileSync::with_params("/vault".to_string(), "test".to_string(), 4, 2);
    assert!(FileSync::is_file_candidate("img/a.png"));
    assert!(!FileSync::is_file_candidate("notes/a.md"));
    assert!(!FileSync::is_file_candidate(".obsidian/x.png"));

    assert_eq!(sync.on_sync_update("", true), UpdateStep::Skip);
    assert_eq!(sync.on_sync_update(".obsidian/x.png", true), UpdateStep::ConfigPath);
    assert_eq!(sync.on_sync_update("a.png", true), UpdateStep::WriteInline);
    assert_eq!(sync.on_sync_update("a.png", false), UpdateStep::RequestChunks);

    sync.delete_pushed("b.png");
    assert_eq!(sync.on_sync_delete("b.png"), DeleteStep::EchoSuppressed);
    sync.begin_push_delete("b.png");
    assert_eq!(sync.on_sync_delete("b.png"), DeleteStep::Delete);
    assert_eq!(sync.on_sync_delete(".obsidian/x.png"), DeleteStep::ConfigPath);
    assert_eq!(sync.on_sync_delete(""), DeleteStep::Skip);

    sync.file_written("c.png", b"abc");
    assert_eq!(sync.plan_upload("c.png", b"abc"), None);
    assert!(sync.plan_upload("c.png", b"abd").is_some());
}

#[test]
fn file_download_roundtrip() {
    let mut sync = FileSync::with_params("/vault".to_string(), "test".to_string(), 4, 2);
    assert_eq!(sync.on_chunk_download_start("", "a.bin", Some(3), Some(1), Some(4)), DownloadStart::Skip);
    assert_eq!(sync.on_chunk_download_start("s", "a.bin", Some(0), Some(0), None), DownloadStart::WriteEmpty);
    assert_eq!(sync.on_chunk_download_start("sess", "a.bin", Some(6), Some(2), Some(4)), DownloadStart::Started);
    let first = build_binary_chunk("sess", 0, b"abcd");
    assert_eq!(sync.handle_binary_chunk(&first).unwrap(), None);
    let second = build_binary_chunk("sess", 1, b"ef");
    assert_eq!(sync.handle_binary_chunk(&second).unwrap(), Some(("a.bin".to_string(), b"abcdef".to_vec())));
}

#[test]
fn base64_decodes() {
    assert_eq!(base64_decode("aGVsbG8=").unwrap(), b"hello".to_vec());
    assert!(base64_decode("not base64!").is_err());
}

#[test]
fn stable_read_waits_for_settled_file() {
    let mut r = StableRead::new();
    assert!(!r.observe(10, Some(5), false));
    assert!(r.observe(10, Some(5), false));
    let mut r = StableRead::new();
    assert!(!r.observe(0, Some(5), true));
    assert!(!r.observe(0, Some(5), true));
    assert!(!r.observe(0, Some(5), true));
    assert!(!r.observe(0, Some(5), true));
    assert!(r.observe(0, Some(5), true));
}

#[test]
fn request_builders() {
    let c = note_check("a.md", "hello", 1, 2);
    assert_eq!(c.path_hash, hash_content("a.md"));
    assert_eq!(c.content_hash, "99162322");
    assert_eq!((c.ctime, c.mtime), (1, 2));
    let f = file_check("p.bin", b"hello", 3, 4);
    assert_eq!(f.content_hash, hash_bytes(b"hello"));
    assert_eq!(f.size, 5);
    assert_eq!(folder_check("dir", 9).path_hash, hash_content("dir"));
    assert_eq!(setting_check(".obsidian/a.json", "{}", 1).content_hash, hash_content("{}"));

    let notes = NoteSync::new("/vault".to_string(), SyncState::default(), "v".to_string(), vec![]);
    let m = notes.modify_request("a.md", "hello".to_string(), 1, 2);
    assert_eq!(m.vault, "v");
    assert_eq!(m.content_hash, Some("99162322".to_string()));
    assert!(!m.create_only);
    let req = notes.sync_request(5, vec![c], "ctx".to_string());
    assert_eq!(req.last_time, 5);
    assert_eq!(req.context, Some("ctx".to_string()));
    let files = FileSync::with_params("/vault".to_string(), "v".to_string(), 4, 1);
    assert_eq!(files.sync_request(vec![], "c".to_string()).last_time, 0);
    assert_eq!(files.delete_request("x.png").path_hash, Some(hash_content("x.png")));
}

#[test]
fn watcher_patterns_follow_config_sync() {
    let mut config = AppConfig::default();
    config.sync.exclude_patterns = patterns(&["*.tmp"]);
    assert_eq!(watcher_patterns(&config.sync), patterns(&["*.tmp"]));
    config.sync.sync_config = false;
    assert_eq!(watcher_patterns(&config.sync), patterns(&["*.tmp", ".obsidian/**", ".agents/**"]));
}

#[test]
fn file_messages_classified() {
    assert_eq!(classify_file_action(ServerAction::FileSyncUpdate), FileMessage::Update);
    assert_eq!(classify_file_action(ServerAction::FileSyncEnd), FileMessage::End);
    assert_eq!(classify_file_action(ServerAction::NoteSyncEnd), FileMessage::Ignore);
}

#[test]
fn upload_frames_reassemble() {
    let data: Vec<u8> = (0..23u8).collect();
    let (frames, total) = upload_frames_for("session-1", 5, &data);
    assert_eq!(total, 5);
    assert_eq!(frames.len(), 5);
    let mut r = ChunkReassembler::new();
    r.set_expected_count(total as u32);
    for f in frames.iter().rev() {
        let parsed = BinaryChunkParser::parse(f).unwrap();
        assert_eq!(parsed.session_id, "session-1");
        r.add_chunk(parsed).unwrap();
    }
    assert_eq!(r.get_data(), Some(data));
}

#[test]
fn file_synced_count_is_modify_plus_delete() {
    let mut sync = FileSync::with_params("/vault".to_string(), "test".to_string(), 4, 2);
    assert_eq!(sync.synced_count(), 0);
    sync.upload_skipped();
    sync.upload_skipped();
    assert_eq!(sync.synced_count(), 0);
    sync.file_written("a.png", b"abc");
    sync.file_deleted("b.png");
    sync.upload_skipped();
    assert_eq!(sync.synced_count(), 2);
}

#[test]
fn reconnect_delay_limit_zero_is_unlimited() {
    let mut config = AppConfig::default();
    config.client.reconnect_max_retries = 0;
    let coordinator = coordinator(config);
    assert_eq!(coordinator.reconnect_delay(1), Some(3));
    assert_eq!(coordinator.reconnect_delay(2), Some(6));
    assert_eq!(coordinator.reconnect_delay(500), Some(300));
}

#[test]
fn server_error_needs_both_fields() {
    assert_eq!(server_error("{\"code\":404,\"message\":\"nope\",\"x\":[1]}"), Some((404, "nope".to_string())));
    assert_eq!(server_error("{\"code\":500}"), None);
    assert_eq!(server_error("{\"code\":\"500\",\"message\":\"m\"}"), None);
    assert_eq!(server_error("{\"code\":500,\"message\":3}"), None);
    assert_eq!(server_error("{\"message\":\"m\",\"code\":7"), None);
}
