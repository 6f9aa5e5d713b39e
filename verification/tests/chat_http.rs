use veya_core::chat::build_chat_request;
use veya_core::chat::classify_http_status;
use veya_core::chat::classify_transport_error;
use veya_core::chat::parse_chat_response;
use veya_core::chat::LlmConfig;
use veya_core::chat::Message;
use veya_core::config::ApiProvider;
use veya_core::error::VeyaError;
use veya_core::sse::WireFormat;

fn openai_config(key: &str) -> LlmConfig {
    LlmConfig {
        provider: ApiProvider::Openai,
        base_url: "https://api.example.com/v1/".to_string(),
        model_name: "gpt-test".to_string(),
        api_key: key.to_string(),
    }
}

fn msg(role: &str, content: &str) -> Message {
    Message { role: role.to_string(), content: content.to_string() }
}

#[test]
fn openai_request_shape_with_and_without_key() {
    let plan = build_chat_request(&openai_config("sk-1"), vec![msg("user", "hi")], false);
    assert_eq!(plan.url, "https://api.example.com/v1/chat/completions");
    assert_eq!(plan.headers, vec![("Authorization".to_string(), "Bearer sk-1".to_string())]);
    assert!(matches!(plan.wire, WireFormat::OpenAi));
    assert_eq!(plan.max_tokens, None);
    assert!(!plan.stream);

    let plan = build_chat_request(&openai_config(""), vec![msg("user", "hi")], true);
    assert!(plan.headers.is_empty());
    assert!(plan.stream);
}

#[test]
fn anthropic_request_shape() {
    let config = LlmConfig {
        provider: ApiProvider::Anthropic,
        base_url: "https://api.anthropic.example".to_string(),
        model_name: "anthropic-test-model".to_string(),
        api_key: "ak-2".to_string(),
    };
    let plan = build_chat_request(&config, vec![msg("user", "hello")], false);
    assert_eq!(plan.url, "https://api.anthropic.example/messages");
    assert!(matches!(plan.wire, WireFormat::Anthropic));
    assert_eq!(plan.max_tokens, Some(4096));
    assert_eq!(plan.headers[0], ("x-api-key".to_string(), "ak-2".to_string()));
    assert_eq!(
        plan.headers[1],
        ("anthropic-version".to_string(), "2023-06-01".to_string())
    );
}

#[test]
fn status_classification_maps_every_class() {
    assert!(matches!(classify_http_status(401, "x"), VeyaError::InvalidApiKey(_)));
    assert!(matches!(classify_http_status(403, "x"), VeyaError::InvalidApiKey(_)));
    assert!(matches!(classify_http_status(404, "x"), VeyaError::ModelUnavailable(_)));
    assert!(matches!(classify_http_status(500, "x"), VeyaError::ModelUnavailable(_)));
    assert!(matches!(classify_http_status(599, "x"), VeyaError::ModelUnavailable(_)));
    assert!(matches!(classify_http_status(418, "x"), VeyaError::ModelUnavailable(_)));
}

#[test]
fn rate_limit_distinguishes_quota_from_throttling() {
    // Body naming a quota problem, case-insensitively.
    assert!(matches!(
        classify_http_status(429, "INSUFFICIENT funds"),
        VeyaError::InsufficientBalance(_)
    ));
    assert!(matches!(
        classify_http_status(402, "Quota exhausted"),
        VeyaError::InsufficientBalance(_)
    ));
    assert!(matches!(
        classify_http_status(429, "low BALANCE"),
        VeyaError::InsufficientBalance(_)
    ));
    // Plain throttling is retryable.
    assert!(matches!(
        classify_http_status(429, "slow down please"),
        VeyaError::NetworkTimeout(_)
    ));
}

#[test]
fn transport_classification() {
    assert!(matches!(
        classify_transport_error(true, false, "t"),
        VeyaError::NetworkTimeout(_)
    ));
    assert!(matches!(
        classify_transport_error(false, true, "c"),
        VeyaError::NetworkTimeout(_)
    ));
    assert!(matches!(
        classify_transport_error(false, false, "o"),
        VeyaError::ModelUnavailable(_)
    ));
}

#[test]
fn openai_response_extracts_first_choice() {
    let body = br#"{"choices":[{"message":{"content":"Hi there"}},{"message":{"content":"second"}}]}"#;
    let r = parse_chat_response(WireFormat::OpenAi, 200, body, "");
    assert_eq!(r.unwrap(), "Hi there");
}

#[test]
fn anthropic_response_extracts_first_block() {
    let body = br#"{"content":[{"type":"text","text":"Bonjour"}]}"#;
    let r = parse_chat_response(WireFormat::Anthropic, 200, body, "");
    assert_eq!(r.unwrap(), "Bonjour");
}

#[test]
fn empty_or_malformed_response_is_model_unavailable() {
    let empty = br#"{"choices":[]}"#;
    assert!(matches!(
        parse_chat_response(WireFormat::OpenAi, 200, empty, ""),
        Err(VeyaError::ModelUnavailable(_))
    ));
    let junk = b"<html>oops</html>";
    assert!(matches!(
        parse_chat_response(WireFormat::OpenAi, 200, junk, ""),
        Err(VeyaError::ModelUnavailable(_))
    ));
    let wrong_shape = br#"{"content":[{"text":"x"}]}"#;
    assert!(matches!(
        parse_chat_response(WireFormat::OpenAi, 200, wrong_shape, ""),
        Err(VeyaError::ModelUnavailable(_))
    ));
}

#[test]
fn failed_status_is_classified_not_parsed() {
    let body = br#"{"choices":[{"message":{"content":"ignored"}}]}"#;
    assert!(matches!(
        parse_chat_response(WireFormat::OpenAi, 401, body, "denied"),
        Err(VeyaError::InvalidApiKey(_))
    ));
}
