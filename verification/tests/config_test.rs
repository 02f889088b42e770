use fns_cli::config::{finish_load, AppConfig, ClientConfig, ServerConfig};
use fns_cli::error::FnsError;

#[test]
fn test_ws_api_https() {
    let mut config = AppConfig::default();
    config.server.api = "https://server.example.com".to_string();
    assert_eq!(config.ws_api(), "wss://server.example.com");
}

#[test]
fn test_ws_api_http() {
    let mut config = AppConfig::default();
    config.server.api = "http://localhost:8080".to_string();
    assert_eq!(config.ws_api(), "ws://localhost:8080");
}

#[test]
fn test_ws_api_trailing_slash() {
    let mut config = AppConfig::default();
    config.server.api = "https://server.example.com/".to_string();
    assert_eq!(config.ws_api(), "wss://server.example.com");
}

#[test]
fn test_default_values() {
    let config = AppConfig::default();
    assert_eq!(config.server.vault, "defaultVault");
    assert_eq!(config.sync.watch_path, "./vault");
    assert!(config.sync.sync_notes);
    assert_eq!(config.sync.upload_concurrency, 2);
    assert_eq!(config.sync.file_chunk_size, 524288);
    assert_eq!(config.client.reconnect_max_retries, 15);
    assert_eq!(config.logging.level, "INFO");
}

#[test]
fn ws_api_keeps_other_schemes() {
    let mut config = AppConfig::default();
    config.server.api = "ftp://host//".to_string();
    assert_eq!(config.ws_api(), "ftp://host");
}

#[test]
fn default_exclude_patterns_and_dirs() {
    let config = AppConfig::default();
    assert_eq!(
        config.sync.exclude_patterns,
        vec![".git/**".to_string(), ".trash/**".to_string(), "*.tmp".to_string(), ".tmp*".to_string()]
    );
    assert_eq!(
        config.sync.config_sync_dirs,
        vec![".obsidian".to_string(), ".agents".to_string()]
    );
    assert_eq!(config.client.reconnect_base_delay, 3);
    assert_eq!(config.client.heartbeat_interval, 30);
    assert_eq!(ClientConfig::default().reconnect_max_retries, 15);
    assert_eq!(ServerConfig::default().vault, "defaultVault");
}

fn filled() -> AppConfig {
    let mut config = AppConfig::default();
    config.server.api = "https://file.example".to_string();
    config.server.token = "file-token".to_string();
    config
}

#[test]
fn finish_load_keeps_file_values() {
    let c = finish_load(filled(), None, None).unwrap();
    assert_eq!(c.server.api, "https://file.example");
    assert_eq!(c.server.token, "file-token");
}

#[test]
fn finish_load_env_overrides() {
    let c = finish_load(
        filled(),
        Some("https://env.example".to_string()),
        Some("env-token".to_string()),
    )
    .unwrap();
    assert_eq!(c.server.api, "https://env.example");
    assert_eq!(c.server.token, "env-token");
}

#[test]
fn finish_load_empty_env_is_ignored() {
    let c = finish_load(filled(), Some(String::new()), Some(String::new())).unwrap();
    assert_eq!(c.server.api, "https://file.example");
    assert_eq!(c.server.token, "file-token");
}

#[test]
fn finish_load_missing_api() {
    let mut config = filled();
    config.server.api = String::new();
    match finish_load(config, None, None) {
        Err(FnsError::Config { message }) => assert!(message.contains("server.api is required")),
        _ => panic!("expected a configuration error"),
    }
}

#[test]
fn finish_load_missing_token() {
    let mut config = filled();
    config.server.token = String::new();
    match finish_load(config, None, None) {
        Err(FnsError::Config { message }) => assert!(message.contains("server.token is required")),
        _ => panic!("expected a configuration error"),
    }
}

#[test]
fn finish_load_missing_vault() {
    let mut config = filled();
    config.server.vault = String::new();
    match finish_load(config, None, None) {
        Err(FnsError::Config { message }) => assert_eq!(message, "server.vault is required"),
        _ => panic!("expected a configuration error"),
    }
}
