use fns_cli::config::{AppConfig, ClientConfig, ServerConfig};
use fns_cli::error::FnsError;
use fns_cli::protocol::{Action, ClientAction, ServerAction};
use fns_cli::ws_client::{normalize_auth_token, ConnectionState, ReconnectStep, WsClient};
use std::time::Duration;

fn client_after_connects(api: &str, connects: u32) -> WsClient {
    let mut config = AppConfig::default();
    config.server.api = api.to_string();
    let mut client = WsClient::new(&config);
    for _ in 0..connects {
        client.start_connect();
    }
    assert_eq!(client.connect_count(), connects);
    client
}

#[test]
fn test_calculate_delay() {
    let mut config = AppConfig::default();
    config.client.reconnect_base_delay = 3;
    let client = WsClient::new(&config);

    assert_eq!(Duration::from_secs(client.calculate_delay(1)), Duration::from_secs(3));
    assert_eq!(Duration::from_secs(client.calculate_delay(2)), Duration::from_secs(6));
    assert_eq!(Duration::from_secs(client.calculate_delay(3)), Duration::from_secs(12));
    assert_eq!(Duration::from_secs(client.calculate_delay(100)), Duration::from_secs(300));
}

#[test]
fn ws_client_test_build_url() {
    let client = client_after_connects("https://server.example.com", 1);
    let url = client.build_url();
    assert_eq!(
        url,
        "wss://server.example.com/api/user/sync?lang=zh-cn&client=ObsidianPlugin&clientName=fns-cli&clientVersion=0.1.0&count=1"
    );
}

#[test]
fn test_build_url_http() {
    let client = client_after_connects("http://localhost:8080", 5);
    let url = client.build_url();
    assert_eq!(
        url,
        "ws://localhost:8080/api/user/sync?lang=zh-cn&client=ObsidianPlugin&clientName=fns-cli&clientVersion=0.1.0&count=5"
    );
}

#[test]
fn ws_client_test_build_url_trailing_slash() {
    let client = client_after_connects("https://server.example.com/", 1);
    let url = client.build_url();
    assert_eq!(
        url,
        "wss://server.example.com/api/user/sync?lang=zh-cn&client=ObsidianPlugin&clientName=fns-cli&clientVersion=0.1.0&count=1"
    );
}

#[test]
fn test_normalize_auth_token() {
    assert_eq!(normalize_auth_token("abc.def.ghi"), "abc.def.ghi");
    assert_eq!(normalize_auth_token(" Bearer abc.def.ghi \n"), "abc.def.ghi");
    assert_eq!(normalize_auth_token("\"abc.def.ghi\""), "abc.def.ghi");
    assert_eq!(normalize_auth_token("Bearer \"abc.def.ghi\""), "abc.def.ghi");
}

#[test]
fn test_connection_state_display() {
    assert_eq!(ConnectionState::Disconnected.to_string(), "Disconnected");
    assert_eq!(ConnectionState::Connected.to_string(), "Connected");
    assert_eq!(ConnectionState::Authenticated.to_string(), "Authenticated");
    assert_eq!(ConnectionState::Reconnecting.to_string(), "Reconnecting");
}

#[test]
fn test_message_queued_before_auth() {
    let config = AppConfig::default();
    let client = WsClient::new(&config);
    assert!(!client.is_authenticated());
    assert_eq!(client.queued_count(), 0);
}

#[test]
fn test_queue_initialization() {
    let config = AppConfig::default();
    let client = WsClient::new(&config);
    assert!(client.queued_count() == 0);
}

#[test]
fn test_queue_with_config() {
    let config = ServerConfig::default();
    let client_config = ClientConfig::default();
    let client = WsClient::with_config(config, client_config);
    assert!(client.queued_count() == 0);
}

#[test]
fn start_connect_returns_url_and_counts() {
    let mut config = AppConfig::default();
    config.server.api = "https://h".to_string();
    let mut client = WsClient::new(&config);
    let url = client.start_connect();
    assert!(url.ends_with("&count=1"));
    assert!(!client.is_reconnection());
    let url = client.start_connect();
    assert!(url.ends_with("&count=2"));
    assert!(client.is_reconnection());
}

#[test]
fn messages_queue_until_authenticated() {
    let config = AppConfig::default();
    let mut client = WsClient::new(&config);
    assert_eq!(client.send("a".to_string()), None);
    assert_eq!(client.send("b".to_string()), None);
    assert_eq!(client.queued_count(), 2);
    assert!(client
        .handle_auth_response(Action::Client(ClientAction::Authorization), 1, "ok")
        .is_ok());
    assert!(client.is_authenticated());
    assert_eq!(client.send("c".to_string()), Some("c".to_string()));
    assert_eq!(client.next_queued(), Some("a".to_string()));
    assert_eq!(client.next_queued(), Some("b".to_string()));
    assert_eq!(client.next_queued(), None);
}

#[test]
fn auth_failure_codes() {
    let config = AppConfig::default();
    let mut client = WsClient::new(&config);
    match client.handle_auth_response(Action::Client(ClientAction::Authorization), 0, "bad") {
        Err(FnsError::WebSocket { message }) => assert_eq!(message, "Authentication failed (code=0): bad"),
        _ => panic!("expected a WebSocket error"),
    }
    match client.handle_auth_response(Action::Client(ClientAction::Authorization), 401, "denied") {
        Err(FnsError::WebSocket { message }) => {
            assert_eq!(message, "Authentication failed (code=401): denied")
        }
        _ => panic!("expected a WebSocket error"),
    }
    assert!(!client.is_authenticated());
}

#[test]
fn auth_wrong_action() {
    let config = AppConfig::default();
    let mut client = WsClient::new(&config);
    match client.handle_auth_response(Action::Server(ServerAction::NoteSyncEnd), 1, "") {
        Err(FnsError::Protocol { .. }) => {}
        _ => panic!("expected a protocol error"),
    }
    assert!(!client.is_authenticated());
}

#[test]
fn auth_message_normalises_token() {
    let mut config = AppConfig::default();
    config.server.token = " Bearer \"tok\" ".to_string();
    let client = WsClient::new(&config);
    assert_eq!(client.auth_message(), "Authorization|tok");
}

#[test]
fn reconnect_steps() {
    let config = AppConfig::default();
    let client = WsClient::new(&config);
    assert_eq!(client.calculate_delay(0), 3);
    assert_eq!(client.reconnect_step(1), ReconnectStep::Retry { delay_secs: 3 });
    assert_eq!(client.reconnect_step(15), ReconnectStep::Retry { delay_secs: 300 });
    assert_eq!(client.reconnect_step(16), ReconnectStep::Pause { delay_secs: 60 });
}

#[test]
fn auth_success_codes_are_one_and_two_hundred() {
    let config = AppConfig::default();
    for code in [6, -1, 2, 199, 201] {
        let mut client = WsClient::new(&config);
        match client.handle_auth_response(Action::Client(ClientAction::Authorization), code, "no") {
            Err(FnsError::WebSocket { .. }) => {}
            _ => panic!("code {} must not authenticate", code),
        }
        assert!(!client.is_authenticated());
    }
    for code in [1, 200] {
        let mut client = WsClient::new(&config);
        assert!(client.handle_auth_response(Action::Client(ClientAction::Authorization), code, "ok").is_ok());
        assert!(client.is_authenticated());
    }
}

#[test]
fn reconnect_limit_zero_is_unlimited() {
    let mut config = AppConfig::default();
    config.client.reconnect_max_retries = 0;
    let client = WsClient::new(&config);
    assert_eq!(client.reconnect_step(1), ReconnectStep::Retry { delay_secs: 3 });
    assert_eq!(client.reconnect_step(1000), ReconnectStep::Retry { delay_secs: 300 });
}
