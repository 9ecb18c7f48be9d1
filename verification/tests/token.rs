use file_name_options::token::{same_bytes, ValueToken};

#[test]
fn tokens_from_text_hold_its_encoding() {
    assert_eq!(ValueToken::from_text("auto").as_bytes(), &[0x61, 0x75, 0x74, 0x6f]);
    assert_eq!(ValueToken::from_text("é").as_bytes(), &[0xc3, 0xa9]);
    assert_eq!(ValueToken::from_text("").as_bytes(), &[] as &[u8]);
    assert_eq!(ValueToken::from_text("auto"), ValueToken::from_bytes(vec![0x61, 0x75, 0x74, 0x6f]));
}

#[test]
fn text_comes_back_from_valid_tokens() {
    assert_eq!(ValueToken::from_text("always").to_str(), Some("always"));
    assert_eq!(ValueToken::from_bytes(vec![0xc3, 0xa9, 0x34]).to_str(), Some("é4"));
    assert_eq!(ValueToken::from_bytes(vec![]).to_str(), Some(""));
}

#[test]
fn no_text_comes_back_from_invalid_tokens() {
    assert_eq!(ValueToken::from_bytes(vec![0xff]).to_str(), None);
    assert_eq!(ValueToken::from_bytes(vec![0x34, 0xc3]).to_str(), None);
    assert_eq!(ValueToken::from_bytes(vec![0xed, 0xa0, 0x80]).to_str(), None);
    assert_eq!(ValueToken::from_bytes(vec![0xc0, 0x80]).to_str(), None);
}

#[test]
fn words_are_compared_byte_for_byte() {
    let token = ValueToken::from_text("auto");
    assert!(token.is_word("auto"));
    assert!(!token.is_word("automatic"));
    assert!(!token.is_word("aut"));
    assert!(!token.is_word("Auto"));
    assert!(!token.is_word(""));
    assert!(ValueToken::from_bytes(vec![]).is_word(""));
}

#[test]
fn a_duplicate_equals_its_origin() {
    let token = ValueToken::from_bytes(vec![1, 2, 0xff]);
    assert_eq!(token.duplicate(), token);
}

#[test]
fn byte_strings_are_compared() {
    assert!(same_bytes(b"", b""));
    assert!(same_bytes(b"abc", b"abc"));
    assert!(!same_bytes(b"abc", b"abd"));
    assert!(!same_bytes(b"abc", b"ab"));
    assert!(!same_bytes(b"", b"a"));
}

#[test]
fn lossy_text_replaces_what_is_not_text() {
    assert_eq!(ValueToken::from_text("auto").to_string_lossy(), "auto");
    assert_eq!(ValueToken::from_bytes(vec![0x34, 0xff]).to_string_lossy(), "4\u{fffd}");
    assert_eq!(ValueToken::from_bytes(vec![0xc3, 0xa9, 0x80]).to_string_lossy(), "\u{e9}\u{fffd}");
}
