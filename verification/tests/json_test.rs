use fns_cli::json::{int_field, payload, text_field, text_member};
use fns_cli::protocol::codec::payload_value;
use fns_cli::sync::coordinator::error_from_members;
use fns_cli::sync::setting::need_upload_paths;
use serde_json::Value;

fn parse(text: &str) -> Value {
    serde_json::from_str(text).unwrap()
}

#[test]
fn payload_is_the_data_member_when_present() {
    let wrapped = parse("{\"code\":1,\"data\":{\"path\":\"a.md\"}}");
    assert_eq!(payload(&wrapped), &parse("{\"path\":\"a.md\"}"));
    let bare = parse("{\"path\":\"b.md\"}");
    assert_eq!(payload(&bare), &bare);
}

#[test]
fn payload_fields() {
    let d = parse("{\"path\":\"a.md\",\"mtime\":42,\"big\":1.5,\"n\":\"7\"}");
    assert_eq!(text_field(&d, "path"), "a.md");
    assert_eq!(text_field(&d, "missing"), "");
    assert_eq!(text_field(&d, "mtime"), "");
    assert_eq!(text_member(&d, "path"), Some("a.md".to_string()));
    assert_eq!(text_member(&d, "mtime"), None);
    assert_eq!(int_field(&d, "mtime"), Some(42));
    assert_eq!(int_field(&d, "big"), None);
    assert_eq!(int_field(&d, "n"), None);
    assert_eq!(int_field(&parse("[1,2]"), "mtime"), None);
}

#[test]
fn payload_value_falls_back_to_a_string() {
    assert_eq!(payload_value(None, "tok"), Value::String("tok".to_string()));
    assert_eq!(payload_value(Some(parse("{\"a\":1}")), "{\"a\":1}"), parse("{\"a\":1}"));
    assert_eq!(payload_value(Some(Value::Null), "anything"), Value::Null);
}

#[test]
fn server_error_needs_code_and_message_members() {
    assert_eq!(error_from_members(Some(500), Some("boom".to_string())), Some((500, "boom".to_string())));
    assert_eq!(error_from_members(Some(500), None), None);
    assert_eq!(error_from_members(None, Some("boom".to_string())), None);
    assert_eq!(error_from_members(None, None), None);
}

#[test]
fn need_upload_paths_of_objects_and_strings() {
    let d = parse("{\"needUpload\":[{\"path\":\".obsidian/a.json\"},\".obsidian/b.json\",{\"x\":1},\"\",7,{\"path\":3}]}");
    assert_eq!(need_upload_paths(&d), vec![".obsidian/a.json".to_string(), ".obsidian/b.json".to_string()]);
    assert_eq!(need_upload_paths(&parse("{\"needUpload\":\"x\"}")), Vec::<String>::new());
    assert_eq!(need_upload_paths(&parse("{}")), Vec::<String>::new());
}
