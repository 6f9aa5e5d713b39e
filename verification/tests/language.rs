use veya_core::insight::detect_language;

#[test]
fn detect_language_english() {
    let lang = detect_language(
        "The quick brown fox jumps over the lazy dog. This is a simple English sentence for testing purposes.",
    );
    assert_eq!(lang, "en");
}

#[test]
fn detect_language_chinese() {
    let lang = detect_language("你好，今天天气怎么样？");
    assert_eq!(lang, "zh");
}

#[test]
fn detect_language_empty_returns_unknown() {
    let lang = detect_language("");
    assert_eq!(lang, "unknown");
}

#[test]
fn detect_language_short_text() {
    // Very short text may not be reliably detected
    let lang = detect_language("hi");
    // Should return something, not panic
    assert!(!lang.is_empty());
}
