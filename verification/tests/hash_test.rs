use fns_cli::hash::{hash_bytes, hash_content, hash_path};

#[test]
fn test_hash_hello() {
    assert_eq!(hash_content("hello"), "99162322");
}

#[test]
fn test_hash_emoji() {
    assert_eq!(hash_content("Fast Note Sync 🚀"), "475362430");
}

#[test]
fn test_hash_chinese() {
    let result = hash_content("你好世界");
    assert!(result.parse::<i32>().is_ok());
}

#[test]
fn test_hash_empty() {
    assert_eq!(hash_content(""), "0");
}

#[test]
fn test_hash_single_char() {
    assert_eq!(hash_content("a"), "97");
}

#[test]
fn hash_test_hash_path_function() {
    assert_eq!(hash_path("hello"), hash_content("hello"));
}

#[test]
fn test_hash_bytes_hashes_raw_bytes() {
    let bytes = [0x89, b'P', b'N', b'G', 0xff, 0x00];
    assert_eq!(hash_bytes(&bytes), "-296492095");
}

#[test]
fn test_negative_hash() {
    let result = hash_content("test with longer string that should overflow");
    assert!(result.parse::<i32>().is_ok());
}

#[test]
fn hash_two_chars_exact() {
    // "ab": (0 * 31 + 97) * 31 + 98
    assert_eq!(hash_content("ab"), "3105");
}

#[test]
fn hash_bytes_of_text_equals_content_hash_for_ascii() {
    assert_eq!(hash_bytes(b"hello"), hash_content("hello"));
}
