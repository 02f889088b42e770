use fns_cli::cli::{Cli, CliError, Commands};
use fns_cli::hash::{hash_content, hash_path};
use fns_cli::state::SyncState;

fn args(a: &[&str]) -> Vec<String> {
    a.iter().map(|s| s.to_string()).collect()
}

#[test]
fn test_hash_ascii_hello() {
    assert_eq!(hash_content("hello"), "99162322");
}

#[test]
fn test_hash_empty_string() {
    assert_eq!(hash_content(""), "0");
}

#[test]
fn test_hash_single_character() {
    assert_eq!(hash_content("a"), "97");
}

#[test]
fn test_hash_chinese_characters() {
    let result = hash_content("你好世界");
    assert!(result.parse::<i32>().is_ok());
}

#[test]
fn integration_test_test_hash_path_function() {
    assert_eq!(hash_path("hello"), hash_content("hello"));
    assert_eq!(hash_path("Fast Note Sync 🚀"), hash_content("Fast Note Sync 🚀"));
}

#[test]
fn test_hash_long_string_overflow() {
    let result = hash_content("test with longer string that should overflow the i32 boundary");
    assert!(result.parse::<i32>().is_ok());
}

#[test]
fn test_hash_consistency_multiple_calls() {
    let input = "consistent hash test";
    let first = hash_content(input);
    let second = hash_content(input);
    let third = hash_content(input);
    assert_eq!(first, second);
    assert_eq!(second, third);
}

#[test]
fn test_state_default_values() {
    let state = SyncState::default();
    assert_eq!(state.last_note_sync_time, 0);
    assert_eq!(state.last_file_sync_time, 0);
    assert_eq!(state.last_setting_sync_time, 0);
}

#[test]
fn test_cli_parse_run_command() {
    let cli = Cli::try_parse_from(args(&["fns-cli", "run"]));
    assert!(cli.is_ok());
    let cli = cli.unwrap();
    assert!(matches!(cli.command, Commands::Run));
}

#[test]
fn test_cli_parse_sync_command() {
    let cli = Cli::try_parse_from(args(&["fns-cli", "sync"]));
    assert!(cli.is_ok());
    let cli = cli.unwrap();
    assert!(matches!(cli.command, Commands::Sync));
}

#[test]
fn test_cli_parse_pull_command() {
    let cli = Cli::try_parse_from(args(&["fns-cli", "pull"]));
    assert!(cli.is_ok());
    let cli = cli.unwrap();
    assert!(matches!(cli.command, Commands::Pull));
}

#[test]
fn test_cli_parse_push_command() {
    let cli = Cli::try_parse_from(args(&["fns-cli", "push"]));
    assert!(cli.is_ok());
    let cli = cli.unwrap();
    assert!(matches!(cli.command, Commands::Push));
}

#[test]
fn test_cli_parse_status_command() {
    let cli = Cli::try_parse_from(args(&["fns-cli", "status"]));
    assert!(cli.is_ok());
    let cli = cli.unwrap();
    assert!(matches!(cli.command, Commands::Status));
}

#[test]
fn test_cli_config_option() {
    let cli = Cli::try_parse_from(args(&["fns-cli", "-c", "/path/to/config.yaml", "sync"]));
    assert!(cli.is_ok());
    let cli = cli.unwrap();
    assert_eq!(cli.config, Some("/path/to/config.yaml".to_string()));
}

#[test]
fn test_cli_config_long_option() {
    let cli = Cli::try_parse_from(args(&["fns-cli", "--config", "/custom/config.yaml", "status"]));
    assert!(cli.is_ok());
    let cli = cli.unwrap();
    assert_eq!(cli.config, Some("/custom/config.yaml".to_string()));
}

#[test]
fn test_cli_verbose_flag() {
    let cli = Cli::try_parse_from(args(&["fns-cli", "-v", "sync"]));
    assert!(cli.is_ok());
    let cli = cli.unwrap();
    assert!(cli.verbose);
}

#[test]
fn test_cli_verbose_long_flag() {
    let cli = Cli::try_parse_from(args(&["fns-cli", "--verbose", "run"]));
    assert!(cli.is_ok());
    let cli = cli.unwrap();
    assert!(cli.verbose);
}

#[test]
fn test_cli_no_verbose_by_default() {
    let cli = Cli::try_parse_from(args(&["fns-cli", "sync"]));
    assert!(cli.is_ok());
    let cli = cli.unwrap();
    assert!(!cli.verbose);
}

#[test]
fn test_cli_combined_options() {
    let cli = Cli::try_parse_from(args(&["fns-cli", "-c", "my-config.yaml", "-v", "status"]));
    assert!(cli.is_ok());
    let cli = cli.unwrap();
    assert_eq!(cli.config, Some("my-config.yaml".to_string()));
    assert!(cli.verbose);
    assert!(matches!(cli.command, Commands::Status));
}

#[test]
fn test_cli_no_config_by_default() {
    let cli = Cli::try_parse_from(args(&["fns-cli", "sync"]));
    assert!(cli.is_ok());
    let cli = cli.unwrap();
    assert!(cli.config.is_none());
}

#[test]
fn cli_config_with_equals_sign() {
    let cli = Cli::try_parse_from(args(&["fns-cli", "--config=vault.yaml", "pull"])).unwrap();
    assert_eq!(cli.config, Some("vault.yaml".to_string()));
    assert_eq!(cli.command, Commands::Pull);
}

#[test]
fn cli_errors() {
    assert_eq!(Cli::try_parse_from(args(&["fns-cli"])), Err(CliError::MissingSubcommand));
    assert_eq!(Cli::try_parse_from(args(&["fns-cli", "--help"])), Err(CliError::Help));
    assert_eq!(Cli::try_parse_from(args(&["fns-cli", "-V"])), Err(CliError::Version));
    assert_eq!(
        Cli::try_parse_from(args(&["fns-cli", "sync", "-c"])),
        Err(CliError::MissingValue("-c".to_string()))
    );
    assert_eq!(
        Cli::try_parse_from(args(&["fns-cli", "-v", "-v", "sync"])),
        Err(CliError::Duplicate("-v".to_string()))
    );
    assert_eq!(
        Cli::try_parse_from(args(&["fns-cli", "sync", "run"])),
        Err(CliError::Unexpected("run".to_string()))
    );
    assert_eq!(
        Cli::try_parse_from(args(&["fns-cli", "bogus"])),
        Err(CliError::Unexpected("bogus".to_string()))
    );
}

#[test]
fn cli_short_option_forms() {
    let cli = Cli::try_parse_from(args(&["fns-cli", "-cvault.yaml", "sync"])).unwrap();
    assert_eq!(cli.config, Some("vault.yaml".to_string()));
    let cli = Cli::try_parse_from(args(&["fns-cli", "-c=vault.yaml", "sync"])).unwrap();
    assert_eq!(cli.config, Some("vault.yaml".to_string()));
    let cli = Cli::try_parse_from(args(&["fns-cli", "-vc", "vault.yaml", "push"])).unwrap();
    assert_eq!(cli.config, Some("vault.yaml".to_string()));
    assert!(cli.verbose);
    assert_eq!(cli.command, Commands::Push);
    let cli = Cli::try_parse_from(args(&["fns-cli", "status", "-vcx.yaml"])).unwrap();
    assert_eq!(cli.config, Some("x.yaml".to_string()));
    assert!(cli.verbose);
}

#[test]
fn cli_help_and_option_errors() {
    assert_eq!(Cli::try_parse_from(args(&["fns-cli", "help"])), Err(CliError::Help));
    assert_eq!(Cli::try_parse_from(args(&["fns-cli", "-vh"])), Err(CliError::Help));
    assert_eq!(Cli::try_parse_from(args(&["fns-cli", "sync", "help"])), Err(CliError::Unexpected("help".to_string())));
    assert_eq!(
        Cli::try_parse_from(args(&["fns-cli", "-c", "-v", "sync"])),
        Err(CliError::MissingValue("-c".to_string()))
    );
    assert_eq!(
        Cli::try_parse_from(args(&["fns-cli", "--config", "--verbose", "sync"])),
        Err(CliError::MissingValue("--config".to_string()))
    );
    assert_eq!(Cli::try_parse_from(args(&["fns-cli", "-x", "sync"])), Err(CliError::Unexpected("-x".to_string())));
    assert_eq!(Cli::try_parse_from(args(&["fns-cli", "-vv", "sync"])), Err(CliError::Duplicate("-v".to_string())));
}
