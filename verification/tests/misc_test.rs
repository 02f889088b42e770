use fns_cli::paths::strip_vault_prefix;
use fns_cli::state::SyncState;
use fns_cli::timefmt::{day_of_year_to_month_day, format_timestamp, is_leap_year};

#[test]
fn test_default_state() {
    let state = SyncState::default();
    assert_eq!(state.last_note_sync_time, 0);
    assert_eq!(state.last_file_sync_time, 0);
    assert_eq!(state.last_setting_sync_time, 0);
}

#[test]
fn timestamp_never() {
    assert_eq!(format_timestamp(0), "Never");
}

#[test]
fn timestamp_new_year_2024() {
    assert_eq!(format_timestamp(1704067200), "2024-01-01 00:00:00");
}

#[test]
fn timestamp_leap_day() {
    assert_eq!(format_timestamp(1709210096), "2024-02-29 12:34:56");
}

#[test]
fn leap_years() {
    assert!(is_leap_year(2000));
    assert!(is_leap_year(2024));
    assert!(!is_leap_year(1900));
    assert!(!is_leap_year(2023));
}

#[test]
fn month_and_day_of_year() {
    assert_eq!(day_of_year_to_month_day(0, 2023), (1, 1));
    assert_eq!(day_of_year_to_month_day(59, 2024), (2, 29));
    assert_eq!(day_of_year_to_month_day(59, 2023), (3, 1));
    assert_eq!(day_of_year_to_month_day(364, 2023), (12, 31));
}

#[test]
fn vault_relative_paths() {
    assert_eq!(strip_vault_prefix("/v/a.md", "/v"), Some("a.md".to_string()));
    assert_eq!(strip_vault_prefix("/v/a.md", "/v/"), Some("a.md".to_string()));
    assert_eq!(strip_vault_prefix("/v", "/v/"), Some(String::new()));
    assert_eq!(strip_vault_prefix("/v/", "/v"), Some(String::new()));
    assert_eq!(strip_vault_prefix("/v", "/v"), Some(String::new()));
    assert_eq!(strip_vault_prefix("/vault/a.md", "/v"), None);
    assert_eq!(strip_vault_prefix("/w/a.md", "/v"), None);
}
