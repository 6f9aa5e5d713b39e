use veya_core::vision::parse_completion_response;

#[test]
fn parse_completion_response_with_tags() {
    let response = "[CORRECTED] Hello world, this is a test.\n[INFERRED] world, test";
    let (corrected, inferred) = parse_completion_response(response);
    assert_eq!(corrected, "Hello world, this is a test.");
    assert_eq!(inferred, vec!["world", "test"]);
}

#[test]
fn parse_completion_response_no_inferred() {
    let response = "[CORRECTED] Exact OCR text.\n[INFERRED] none";
    let (corrected, inferred) = parse_completion_response(response);
    assert_eq!(corrected, "Exact OCR text.");
    assert!(inferred.is_empty());
}

#[test]
fn parse_completion_response_fallback() {
    let response = "Just some raw text without tags";
    let (corrected, inferred) = parse_completion_response(response);
    assert_eq!(corrected, "Just some raw text without tags");
    assert!(inferred.is_empty());
}

#[test]
fn parse_completion_response_multiline_corrected() {
    let response = "[CORRECTED] Line one\nLine two\nLine three\n[INFERRED] none";
    let (corrected, inferred) = parse_completion_response(response);
    assert_eq!(corrected, "Line one\nLine two\nLine three");
    assert!(inferred.is_empty());
}

#[test]
fn parse_completion_inferred_items_are_trimmed() {
    let response = "[CORRECTED] x\n[INFERRED]  alpha ,  , beta ";
    let (corrected, inferred) = parse_completion_response(response);
    assert_eq!(corrected, "x");
    assert_eq!(inferred, vec!["alpha", "beta"]);
}
