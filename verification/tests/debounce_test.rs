use fns_cli::debounce::{Debouncer, WatchEvent};

#[test]
fn test_new_creates_empty_debouncer() {
    let debouncer = Debouncer::new(500);
    assert!(debouncer.is_empty());
    assert_eq!(debouncer.pending_count(), 0);
}

#[test]
fn test_default_is_500ms() {
    let debouncer = Debouncer::default();
    assert!(debouncer.is_empty());
}

#[test]
fn test_add_event_queues_event() {
    let mut debouncer = Debouncer::new(500);
    let event = WatchEvent::Modified("/test/file.txt".to_string());

    let result = debouncer.add_event(event);
    assert!(result.is_empty());
    assert!(!debouncer.is_empty());
}

#[test]
fn test_tick_does_not_return_new_events() {
    let mut debouncer = Debouncer::new(500);

    let result = debouncer.add_event(WatchEvent::Modified("/test/file.txt".to_string()));

    assert!(result.is_empty());
    assert!(!debouncer.is_empty());
}

#[test]
fn debounce_same_path_keeps_latest_event() {
    let mut debouncer = Debouncer::new(100);
    debouncer.add_event_at(WatchEvent::Modified("/test/file.txt".to_string()), 0);
    debouncer.add_event_at(WatchEvent::Deleted("/test/file.txt".to_string()), 1_000_000);
    assert_eq!(debouncer.pending_count(), 1);

    let result = debouncer.tick_at(151_000_000);
    assert_eq!(result, vec![WatchEvent::Deleted("/test/file.txt".to_string())]);
    assert!(debouncer.is_empty());
}

#[test]
fn debounce_tick_hands_out_only_ready_events() {
    let mut debouncer = Debouncer::new(50);
    debouncer.add_event_at(WatchEvent::Modified("/test/file1.txt".to_string()), 0);
    debouncer.add_event_at(WatchEvent::Modified("/test/file2.txt".to_string()), 40_000_000);

    let first = debouncer.tick_at(60_000_000);
    assert_eq!(first, vec![WatchEvent::Modified("/test/file1.txt".to_string())]);
    assert_eq!(debouncer.pending_count(), 1);

    let second = debouncer.tick_at(100_000_000);
    assert_eq!(second, vec![WatchEvent::Modified("/test/file2.txt".to_string())]);
    assert!(debouncer.is_empty());
}

#[test]
fn debounce_path_of_move_is_source() {
    let e = WatchEvent::Moved { from: "/a".to_string(), to: "/b".to_string() };
    assert_eq!(e.path(), "/a");
}

#[test]
fn expand_deleted_directory() {
    let debouncer = Debouncer::default();
    let out = debouncer.expand_directory_event(
        WatchEvent::Deleted("/v/dir".to_string()),
        vec!["/v/dir/a.md".to_string(), "/v/dir/sub/b.png".to_string()],
    );
    assert_eq!(
        out,
        vec![WatchEvent::Deleted("/v/dir/a.md".to_string()), WatchEvent::Deleted("/v/dir/sub/b.png".to_string())]
    );
}

#[test]
fn expand_moved_directory() {
    let debouncer = Debouncer::default();
    let out = debouncer.expand_directory_event(
        WatchEvent::Moved { from: "/v/old".to_string(), to: "/v/new".to_string() },
        vec!["/v/old/a.md".to_string(), "/v/other/x".to_string(), "/v/old/s/b.md".to_string()],
    );
    assert_eq!(
        out,
        vec![
            WatchEvent::Moved { from: "/v/old/a.md".to_string(), to: "/v/new/a.md".to_string() },
            WatchEvent::Moved { from: "/v/old/s/b.md".to_string(), to: "/v/new/s/b.md".to_string() },
        ]
    );
}

#[test]
fn expand_without_children_keeps_event() {
    let debouncer = Debouncer::default();
    let e = WatchEvent::Deleted("/v/file.md".to_string());
    assert_eq!(debouncer.expand_directory_event(e.clone(), vec![]), vec![e]);
    let c = WatchEvent::Created("/v/dir".to_string());
    assert_eq!(debouncer.expand_directory_event(c.clone(), vec!["/v/dir/x".to_string()]), vec![c]);
}
