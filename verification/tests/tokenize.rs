use veya_core::records::tokenize;

#[test]
fn tokenize_english() {
    let tokens = tokenize("Hello, world! It's a test.");
    assert_eq!(tokens, vec!["hello", "world", "it's", "a", "test"]);
}

#[test]
fn tokenize_cjk() {
    let tokens = tokenize("你好世界");
    assert_eq!(tokens, vec!["你", "好", "世", "界"]);
}

#[test]
fn tokenize_mixed() {
    let tokens = tokenize("Hello你好world");
    assert_eq!(tokens, vec!["hello", "你", "好", "world"]);
}

#[test]
fn tokenize_empty() {
    assert!(tokenize("").is_empty());
    assert!(tokenize("   ").is_empty());
}

#[test]
fn tokenize_keeps_hyphens_and_numbers() {
    let tokens = tokenize("state-of-the-art GPT-4 in 2024");
    assert_eq!(tokens, vec!["state-of-the-art", "gpt-4", "in", "2024"]);
}

#[test]
fn tokenize_uppercase_is_folded() {
    // Would fail if the case-folding wrapper handed its input back.
    let tokens = tokenize("LOUD Noises");
    assert_eq!(tokens, vec!["loud", "noises"]);
}
