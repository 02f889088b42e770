use fns_cli::watcher::{FileWatcher, RawEvent, RawKind, RawPath, WatchEvent};

fn raw(kind: RawKind, paths: &[(&str, bool, bool)]) -> RawEvent {
    RawEvent {
        kind,
        paths: paths
            .iter()
            .map(|(p, exists, is_file)| RawPath { path: p.to_string(), exists: *exists, is_file: *is_file })
            .collect(),
    }
}

#[test]
fn test_matches_pattern_recursive() {
    assert!(FileWatcher::matches_pattern(".git/config", ".git/**"));
    assert!(FileWatcher::matches_pattern(".git/objects/abc", ".git/**"));
    assert!(FileWatcher::matches_pattern(".git", ".git/**"));
    assert!(!FileWatcher::matches_pattern("notes.md", ".git/**"));
}

#[test]
fn test_matches_pattern_extension() {
    assert!(FileWatcher::matches_pattern("file.tmp", "*.tmp"));
    assert!(FileWatcher::matches_pattern("notes.tmp", "*.tmp"));
    assert!(FileWatcher::matches_pattern("notes.md.tmp.w_3o8rmv", "*.tmp"));
    assert!(!FileWatcher::matches_pattern("notes.md", "*.tmp"));
}

#[test]
fn test_matches_pattern_exact() {
    assert!(FileWatcher::matches_pattern(".fns_state.json", ".fns_state.json"));
    assert!(!FileWatcher::matches_pattern("other.json", ".fns_state.json"));
}

#[test]
fn matches_pattern_prefix_star() {
    assert!(FileWatcher::matches_pattern("draft-1.md", "draft*"));
    assert!(!FileWatcher::matches_pattern("notes/draft-1.md", "draft*"));
}

#[test]
fn test_is_excluded_default_paths() {
    let watcher = FileWatcher::new("/vault".to_string(), vec![]);

    assert!(watcher.is_excluded("/vault/.git"));
    assert!(watcher.is_excluded("/vault/.git/config"));
    assert!(watcher.is_excluded("/vault/.trash/old.md"));
    assert!(watcher.is_excluded("/vault/.fns_state.json"));
    assert!(watcher.is_excluded("/vault/.DS_Store"));
    assert!(watcher.is_excluded("/vault/notes/.DS_Store"));
    assert!(watcher.is_excluded("/vault/file.tmp"));
    assert!(watcher.is_excluded("/vault/file.md.tmp.w_3o8rmv"));
    assert!(watcher.is_excluded("/vault/.tmpwEYnim"));
    assert!(!watcher.is_excluded("/vault/notes.md"));
}

#[test]
fn test_is_excluded_custom_patterns() {
    let patterns = vec!["*.tmp".to_string(), "drafts/**".to_string(), ".obsidian/**".to_string()];
    let watcher = FileWatcher::new("/vault".to_string(), patterns);

    assert!(watcher.is_excluded("/vault/file.tmp"));
    assert!(watcher.is_excluded("/vault/file.md.tmp.w_3o8rmv"));
    assert!(watcher.is_excluded("/vault/file.md.~#0"));
    assert!(watcher.is_excluded("/vault/drafts/note.md"));
    assert!(watcher.is_excluded("/vault/.obsidian/plugins/fast-note-sync/data.json"));
    assert!(!watcher.is_excluded("/vault/notes.md"));
}

#[test]
fn test_process_event_ignores_tmp_dotfile() {
    let mut watcher = FileWatcher::new("/vault".to_string(), vec![]);
    let event = raw(RawKind::OtherModify, &[("/vault/.tmpwEYnim", true, true)]);
    assert!(watcher.process_event(event).is_empty());
}

#[test]
fn process_create_and_modify() {
    let mut watcher = FileWatcher::new("/vault".to_string(), vec![]);
    let events = watcher.process_event(raw(RawKind::Create, &[("/vault/a.md", true, true)]));
    assert_eq!(events, vec![WatchEvent::Created("/vault/a.md".to_string())]);
    assert_eq!(watcher.known_count(), 1);
    let events = watcher.process_event(raw(RawKind::OtherModify, &[("/vault/a.md", true, true)]));
    assert_eq!(events, vec![WatchEvent::Modified("/vault/a.md".to_string())]);
}

#[test]
fn process_rename_both() {
    let mut watcher = FileWatcher::new("/vault".to_string(), vec![]);
    watcher.track_file("/vault/a.md");
    let events = watcher.process_event(raw(
        RawKind::RenameBoth,
        &[("/vault/a.md", false, false), ("/vault/b.md", true, true)],
    ));
    assert_eq!(
        events,
        vec![WatchEvent::Moved { from: "/vault/a.md".to_string(), to: "/vault/b.md".to_string() }]
    );
}

#[test]
fn process_remove_file() {
    let mut watcher = FileWatcher::new("/vault".to_string(), vec![]);
    watcher.track_file("/vault/a.md");
    let events = watcher.process_event(raw(RawKind::RemoveFile, &[("/vault/a.md", false, false)]));
    assert_eq!(events, vec![WatchEvent::Deleted("/vault/a.md".to_string())]);
    assert_eq!(watcher.known_count(), 0);
}

#[test]
fn known_files_under_dir() {
    let mut watcher = FileWatcher::new("/vault".to_string(), vec![]);
    watcher.initialize_known_files(&vec!["/vault/d/a.md".to_string(), "/vault/d/b.md".to_string(), "/vault/e.md".to_string(), "/vault/.git/x".to_string()]);
    assert_eq!(watcher.known_count(), 3);
    let mut under = watcher.get_files_under_dir("d");
    under.sort();
    assert_eq!(under.len(), 2);
    watcher.untrack_file("/vault/e.md");
    assert_eq!(watcher.known_count(), 2);
}

#[test]
fn remove_folder_reports_known_files_under_it() {
    let mut watcher = FileWatcher::new("/vault".to_string(), vec![]);
    watcher.initialize_known_files(&vec![
        "/vault/d/a.md".to_string(),
        "/vault/d/b.md".to_string(),
        "/vault/e.md".to_string(),
        "/vault/.git/config".to_string(),
    ]);
    assert_eq!(watcher.known_count(), 3);
    let events = watcher.process_event(raw(RawKind::RemoveFolder, &[("/vault/d", false, false)]));
    assert_eq!(
        events,
        vec![WatchEvent::Deleted("/vault/d/a.md".to_string()), WatchEvent::Deleted("/vault/d/b.md".to_string())]
    );
    assert_eq!(watcher.known_count(), 1);
    let events = watcher.process_event(raw(RawKind::RemoveFolder, &[("/vault/.git", false, false)]));
    assert!(events.is_empty());
}

#[test]
fn rename_into_excluded_path_is_not_a_move() {
    let mut watcher = FileWatcher::new("/vault".to_string(), vec!["drafts/**".to_string()]);
    watcher.track_file("/vault/a.md");
    let events = watcher.process_event(raw(
        RawKind::RenameBoth,
        &[("/vault/a.md", false, false), ("/vault/drafts/a.md", true, true)],
    ));
    assert!(events.iter().all(|e| !matches!(e, WatchEvent::Moved { .. })));
}
