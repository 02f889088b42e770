use fns_cli::protocol::{
    build_binary_chunk, decode_message, encode_simple_message, parse_binary_chunk, Action, BinaryChunkBuilder,
    BinaryChunkParser, ChunkReassembler, ClientAction, ParsedChunk, ServerAction,
};

#[test]
fn test_encode_message() {
    let action = Action::Client(ClientAction::Authorization);
    let msg = encode_simple_message(&action, "test-token");
    assert_eq!(msg, "Authorization|test-token");
}

#[test]
fn test_decode_message() {
    let (action, data) = decode_message("Authorization|\"test-token\"").unwrap();
    assert_eq!(action, Action::Client(ClientAction::Authorization));
    assert_eq!(data, serde_json::Value::String("test-token".to_string()));
}

#[test]
fn decode_message_unknown_action() {
    let err = decode_message("NoSuchAction|{}").unwrap_err();
    assert_eq!(err, "Unknown action: NoSuchAction");
}

#[test]
fn decode_message_without_separator_has_empty_object() {
    let (action, data) = decode_message("NoteSyncEnd").unwrap();
    assert_eq!(action, Action::Server(ServerAction::NoteSyncEnd));
    assert_eq!(data, serde_json::Value::Object(serde_json::Map::new()));
}

#[test]
fn test_binary_chunk_roundtrip() {
    let session_id = "abc123-def456-ghi789";
    let chunk_index = 42u32;
    let data = b"hello world";

    let frame = build_binary_chunk(session_id, chunk_index, data);

    let raw = &frame[2..];
    let (sid, idx, payload) = parse_binary_chunk(raw).unwrap();

    assert_eq!(sid, session_id);
    assert_eq!(idx, chunk_index);
    assert_eq!(payload, data);
}

#[test]
fn test_builder_basic() {
    let frame = BinaryChunkBuilder::new("test-session-id").chunk_index(5).data(b"test payload").build();

    assert!(BinaryChunkParser::is_binary_frame(&frame));

    let parsed = BinaryChunkParser::parse(&frame).unwrap();
    assert_eq!(parsed.session_id, "test-session-id");
    assert_eq!(parsed.chunk_index, 5);
    assert_eq!(parsed.data, b"test payload");
}

#[test]
fn test_builder_empty_data() {
    let frame = BinaryChunkBuilder::new("sid").chunk_index(0).data(&[][..]).build();

    let parsed = BinaryChunkParser::parse(&frame).unwrap();
    assert_eq!(parsed.data, Vec::<u8>::new());
}

#[test]
fn test_builder_session_id_padding() {
    let short_id = "short";
    let frame = BinaryChunkBuilder::new(short_id).chunk_index(0).data(b"x").build();

    let parsed = BinaryChunkParser::parse(&frame).unwrap();
    assert_eq!(parsed.session_id, short_id);
}

#[test]
fn test_builder_session_id_truncation() {
    let long_id = "this-is-a-very-long-session-id-that-exceeds-36-bytes";
    let frame = BinaryChunkBuilder::new(long_id).chunk_index(0).data(b"x").build();

    let parsed = BinaryChunkParser::parse(&frame).unwrap();
    assert_eq!(parsed.session_id.len(), 36);
    assert!(long_id.starts_with(&parsed.session_id));
}

#[test]
fn test_parser_invalid_prefix() {
    let bad_frame = vec![0x01, 0x02, 0x03, 0x04];
    let result = BinaryChunkParser::parse(&bad_frame);
    assert!(result.is_err());
    assert!(result.unwrap_err().contains("Invalid prefix"));
}

#[test]
fn test_parser_too_short() {
    let short_frame = vec![b'0', b'0'];
    let result = BinaryChunkParser::parse(&short_frame);
    assert!(result.is_err());
    assert!(result.unwrap_err().contains("too short"));
}

#[test]
fn test_parser_is_binary_frame() {
    let binary = vec![b'0', b'0', 0x01, 0x02];
    let text = b"Hello|{}";

    assert!(BinaryChunkParser::is_binary_frame(&binary));
    assert!(!BinaryChunkParser::is_binary_frame(text));
}

#[test]
fn test_parser_roundtrip_large_data() {
    let data: Vec<u8> = (0..=255).cycle().take(10000).collect();
    let frame = BinaryChunkBuilder::new("large-data-test").chunk_index(123).data(&data).build();

    let parsed = BinaryChunkParser::parse(&frame).unwrap();
    assert_eq!(parsed.data, data);
}

fn chunk(sid: &str, index: u32, data: Vec<u8>) -> ParsedChunk {
    ParsedChunk { session_id: sid.to_string(), chunk_index: index, data }
}

#[test]
fn test_reassembler_single_chunk() {
    let mut reassembler = ChunkReassembler::new();
    reassembler.set_expected_count(1);

    let complete = reassembler.add_chunk(chunk("test-session", 0, vec![1, 2, 3, 4])).unwrap();
    assert!(complete);

    let data = reassembler.get_data().unwrap();
    assert_eq!(data, vec![1, 2, 3, 4]);
}

#[test]
fn test_reassembler_multiple_chunks() {
    let mut reassembler = ChunkReassembler::new();
    reassembler.set_expected_count(3);

    assert!(!reassembler.add_chunk(chunk("session", 0, vec![1, 2])).unwrap());
    assert!(!reassembler.add_chunk(chunk("session", 1, vec![3, 4])).unwrap());
    assert!(reassembler.add_chunk(chunk("session", 2, vec![5, 6])).unwrap());

    let data = reassembler.get_data().unwrap();
    assert_eq!(data, vec![1, 2, 3, 4, 5, 6]);
}

#[test]
fn test_reassembler_out_of_order() {
    let mut reassembler = ChunkReassembler::new();
    reassembler.set_expected_count(3);

    reassembler.add_chunk(chunk("session", 2, vec![5, 6])).unwrap();
    reassembler.add_chunk(chunk("session", 0, vec![1, 2])).unwrap();
    let complete = reassembler.add_chunk(chunk("session", 1, vec![3, 4])).unwrap();

    assert!(complete);
    let data = reassembler.get_data().unwrap();
    assert_eq!(data, vec![1, 2, 3, 4, 5, 6]);
}

#[test]
fn test_reassembler_session_mismatch() {
    let mut reassembler = ChunkReassembler::new();

    reassembler.add_chunk(chunk("session-a", 0, vec![1])).unwrap();
    let result = reassembler.add_chunk(chunk("session-b", 1, vec![2]));
    assert!(result.is_err());
    assert!(result.unwrap_err().contains("Session ID mismatch"));
}

#[test]
fn test_reassembler_expected_count() {
    let mut reassembler = ChunkReassembler::new();
    reassembler.set_expected_count(3);

    reassembler.add_chunk(chunk("session", 0, vec![1])).unwrap();
    reassembler.add_chunk(chunk("session", 1, vec![2])).unwrap();
    assert!(reassembler.add_chunk(chunk("session", 2, vec![3])).unwrap());
}

#[test]
fn test_reassembler_missing_indices() {
    let mut reassembler = ChunkReassembler::new();

    reassembler.add_chunk(chunk("session", 0, vec![1])).unwrap();
    reassembler.add_chunk(chunk("session", 2, vec![3])).unwrap();

    let missing = reassembler.missing_indices();
    assert_eq!(missing, vec![1]);
}

#[test]
fn test_reassembler_reset() {
    let mut reassembler = ChunkReassembler::new();
    reassembler.set_expected_count(1);

    reassembler.add_chunk(chunk("session", 0, vec![1, 2, 3])).unwrap();
    assert!(reassembler.is_complete());

    reassembler.reset();
    assert!(!reassembler.is_complete());
    assert_eq!(reassembler.chunk_count(), 0);
    assert!(reassembler.session_id().is_none());
}

#[test]
fn test_reassembler_duplicate_chunk() {
    let mut reassembler = ChunkReassembler::new();
    reassembler.set_expected_count(1);

    reassembler.add_chunk(chunk("session", 0, vec![1, 2])).unwrap();
    reassembler.add_chunk(chunk("session", 0, vec![3, 4])).unwrap();

    let data = reassembler.get_data().unwrap();
    assert_eq!(data, vec![3, 4]);
}

#[test]
fn test_full_roundtrip_with_reassembler() {
    let session_id = "integration-test-session-id";
    let original_data: Vec<u8> = (0..=255).cycle().take(5000).collect();

    let chunk_size = 1000;
    let chunks: Vec<Vec<u8>> = original_data
        .chunks(chunk_size)
        .enumerate()
        .map(|(i, data)| BinaryChunkBuilder::new(session_id).chunk_index(i as u32).data(data).build())
        .collect();

    let mut reassembler = ChunkReassembler::new();
    reassembler.set_expected_count(chunks.len() as u32);

    for frame in &chunks {
        let parsed = BinaryChunkParser::parse(frame).unwrap();
        reassembler.add_chunk(parsed).unwrap();
    }

    let reassembled = reassembler.get_data().unwrap();
    assert_eq!(reassembled, original_data);
}

#[test]
fn action_names_roundtrip() {
    for name in ["Authorization", "NoteSyncModify", "FileSyncEnd", "SettingSyncNeedUpload"] {
        let action = Action::from_str(name).unwrap();
        assert_eq!(action.to_string(), name);
    }
    assert!(Action::from_str("Nope").is_err());
}

#[test]
fn decode_message_payload_forms() {
    let (_, data) = decode_message("NoteSyncModify|{\"path\":\"a.md\",\"n\":3}").unwrap();
    assert_eq!(data["path"], serde_json::Value::String("a.md".to_string()));
    assert_eq!(data["n"], serde_json::Value::from(3));
    let (_, bare) = decode_message("NoteSyncEnd|not json").unwrap();
    assert_eq!(bare, serde_json::Value::String("not json".to_string()));
}

#[test]
fn reassembler_stray_index_is_not_complete() {
    let mut r = ChunkReassembler::new();
    r.set_expected_count(2);
    assert!(!r.add_chunk(chunk("s", 0, vec![1])).unwrap());
    assert!(!r.add_chunk(chunk("s", 5, vec![2])).unwrap());
    assert!(!r.is_complete());
    assert_eq!(r.get_data(), None);
    assert_eq!(r.missing_indices(), vec![1]);
    assert!(r.add_chunk(chunk("s", 1, vec![3])).unwrap());
    assert_eq!(r.get_data(), Some(vec![1, 3]));
}

#[test]
fn reassembler_completes_once_count_is_known() {
    let mut r = ChunkReassembler::new();
    assert!(!r.add_chunk(chunk("s", 1, vec![2, 3])).unwrap());
    assert!(!r.add_chunk(chunk("s", 0, vec![1])).unwrap());
    assert!(!r.is_complete());
    r.set_expected_count(2);
    assert!(r.is_complete());
    assert_eq!(r.get_data(), Some(vec![1, 2, 3]));
}

#[test]
fn reassembler_expecting_no_chunk_misses_none() {
    let mut r = ChunkReassembler::new();
    r.set_expected_count(0);
    assert_eq!(r.missing_indices(), Vec::<u32>::new());
    assert!(r.is_complete());
    assert_eq!(r.get_data(), Some(vec![]));
}

#[test]
fn long_session_id_is_cut_to_thirty_six_bytes() {
    let sid = "0123456789abcdef0123456789abcdef0123-tail";
    let frame = build_binary_chunk(sid, 9, b"xy");
    let parsed = BinaryChunkParser::parse(&frame).unwrap();
    assert_eq!(parsed.session_id, "0123456789abcdef0123456789abcdef0123");
    assert_eq!(parsed.chunk_index, 9);
    assert_eq!(parsed.data, b"xy".to_vec());
}

#[test]
fn ascii_session_ids_round_trip_up_to_thirty_six_bytes() {
    for sid in ["", "a", "0123456789abcdef0123456789abcdef0123"] {
        let parsed = BinaryChunkParser::parse(&build_binary_chunk(sid, 3, b"z")).unwrap();
        assert_eq!(parsed.session_id, sid);
        assert_eq!(parsed.chunk_index, 3);
        assert_eq!(parsed.data, b"z".to_vec());
    }
}
