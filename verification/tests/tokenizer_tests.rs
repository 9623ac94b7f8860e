//! Tests for the tokenizer.

use pocket_tts::error::PocketTTSError;
use pocket_tts::tokenizer::PocketTokenizer;

#[test]
fn test_tokenizer_creation() {
    let _: fn() -> Option<PocketTokenizer> = || None;
}

#[test]
fn test_minimal_tokenizer() {
    let tokenizer = PocketTokenizer::minimal();
    assert!(tokenizer.vocab_size() > 0);
    assert!(tokenizer.bos_token_id().is_some());
    assert!(tokenizer.eos_token_id().is_some());
}

#[test]
fn test_encode_decode() {
    let tokenizer = PocketTokenizer::minimal();
    let text = "hello";
    let tokens = tokenizer.encode(text).unwrap();
    assert!(!tokens.is_empty());

    let decoded = tokenizer.decode(&tokens).unwrap();
    assert_eq!(decoded.to_lowercase(), text);
}

#[test]
fn test_from_json() {
    let json = r#"{"<unk>": 0, "<s>": 1, "</s>": 2, "hello": 3, " ": 4, "world": 5}"#;
    let tokenizer = PocketTokenizer::from_bytes(json.as_bytes()).unwrap();
    assert_eq!(tokenizer.vocab_size(), 6);

    let tokens = tokenizer.encode("hello world").unwrap();
    // Should be: <s> hello <space> world </s>
    assert_eq!(tokens[0], 1); // <s>
    assert_eq!(tokens[1], 3); // hello
    assert_eq!(tokens[2], 4); // space
    assert_eq!(tokens[3], 5); // world
    assert_eq!(tokens[4], 2); // </s>
}

#[test]
fn test_hello_world_token_ids() {
    // encoding "hello world" against this vocabulary yields [1, 3, 4, 5, 2]
    let json = r#"{"<s>": 1, "hello": 3, " ": 4, "world": 5, "</s>": 2}"#;
    let tokenizer = PocketTokenizer::from_bytes(json.as_bytes()).unwrap();
    let tokens = tokenizer.encode("hello world").unwrap();
    assert_eq!(tokens, vec![1, 3, 4, 5, 2]);
}

#[test]
fn test_greedy_longest_match() {
    // "ab" must win over "a" followed by "b"
    let json = r#"{"a": 10, "b": 11, "ab": 12}"#;
    let tokenizer = PocketTokenizer::from_bytes(json.as_bytes()).unwrap();
    let tokens = tokenizer.encode("aab").unwrap();
    assert_eq!(tokens, vec![10, 12]);
}

#[test]
fn test_encode_unknown_character_degrades() {
    let tokenizer = PocketTokenizer::minimal();
    // '#' is not in the minimal vocabulary: it degrades to the unknown id
    let tokens = tokenizer.encode("#").unwrap();
    assert_eq!(tokens.len(), 3); // <s>, <unk>, </s>
    assert_eq!(tokens[1], 0);
}

#[test]
fn test_decode_skips_sentinels_and_marks_unknown_ids() {
    let tokenizer = PocketTokenizer::minimal();
    // bos=1, eos=2, pad=3 vanish; 99999 is out of range
    let decoded = tokenizer.decode(&[1, 5, 3, 6, 2, 99999]).unwrap();
    assert_eq!(decoded, "ab\u{FFFD}");
}

#[test]
fn test_round_trip_minimal() {
    let tokenizer = PocketTokenizer::minimal();
    let text = "Hello, world!";
    let tokens = tokenizer.encode(text).unwrap();
    let decoded = tokenizer.decode(&tokens).unwrap();
    assert_eq!(decoded, text);
}

#[test]
fn test_from_bytes_rejects_invalid_utf8() {
    let err = PocketTokenizer::from_bytes(&[0xff, 0xfe, 0xfd]).unwrap_err();
    assert!(matches!(err, PocketTTSError::TokenizationFailed(_)));
    assert!(err.message().contains("Invalid UTF-8"));
}

#[test]
fn test_from_bytes_rejects_invalid_json() {
    let err = PocketTokenizer::from_bytes(b"not json at all").unwrap_err();
    assert!(matches!(err, PocketTTSError::TokenizationFailed(_)));
    assert!(err.message().contains("Invalid vocab JSON"));
}

#[test]
fn test_special_token_ids_from_vocabulary() {
    let json = r#"{"<unk>": 9, "<s>": 7, "</s>": 8, "<pad>": 6, "x": 0}"#;
    let tokenizer = PocketTokenizer::from_bytes(json.as_bytes()).unwrap();
    assert_eq!(tokenizer.bos_token_id(), Some(7));
    assert_eq!(tokenizer.eos_token_id(), Some(8));
    assert_eq!(tokenizer.pad_token_id(), Some(6));
}
