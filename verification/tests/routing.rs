use veya_core::config::ApiProvider;
use veya_core::error::VeyaError;
use veya_core::retry::RetryPolicy;
use veya_core::tts::build_tts_request;
use veya_core::tts::classify_tts_http_status;
use veya_core::tts::synthesize_result;
use veya_core::tts::TtsClient;
use veya_core::tts::TtsConfig;
use veya_core::tts::TtsOptions;
use veya_core::tts::TtsRequestBody;

fn make_config(lang: &str, index: usize) -> TtsConfig {
    TtsConfig {
        provider: ApiProvider::Openai,
        base_url: format!("https://tts-{}-{}.example.com", lang, index),
        model_name: "tts-1".to_string(),
        api_key: format!("key-{}", lang),
        language: lang.to_string(),
    }
}

#[test]
fn routes_to_exact_language_match() {
    let configs = vec![make_config("zh", 1), make_config("en", 2), make_config("ja", 3)];
    let client = TtsClient::new(configs, RetryPolicy::new(0, 100, 1000));
    assert_eq!(client.route_url("en").unwrap(), "https://tts-en-2.example.com");
    assert_eq!(client.route_url("ja").unwrap(), "https://tts-ja-3.example.com");
}

#[test]
fn routes_via_prefix_match_in_both_directions() {
    let configs = vec![make_config("zh", 1), make_config("en", 2)];
    let client = TtsClient::new(configs, RetryPolicy::new(0, 100, 1000));
    // "en" serves "en-US".
    assert_eq!(client.route_url("en-US").unwrap(), "https://tts-en-2.example.com");
    // and a "zh-CN" config serves a bare "zh" request.
    let configs = vec![make_config("en", 1), make_config("zh-CN", 2)];
    let client = TtsClient::new(configs, RetryPolicy::new(0, 100, 1000));
    assert_eq!(client.route_url("zh").unwrap(), "https://tts-zh-CN-2.example.com");
}

#[test]
fn falls_back_to_first_config_when_no_match() {
    let configs = vec![make_config("en", 1), make_config("zh", 2)];
    let client = TtsClient::new(configs, RetryPolicy::new(0, 100, 1000));
    assert_eq!(client.route_url("xx").unwrap(), "https://tts-en-1.example.com");
}

#[test]
fn routing_with_nothing_configured_fails() {
    let client = TtsClient::new(Vec::new(), RetryPolicy::new(0, 100, 1000));
    match client.route_url("en") {
        Err(VeyaError::TtsFailed(_)) => {},
        other => panic!("expected TtsFailed, got {:?}", other),
    }
}

#[test]
fn openai_tts_request_shape() {
    let config = make_config("en", 1);
    let options = TtsOptions { voice: None, speed_hundredths: Some(75) };
    let plan = build_tts_request(&config, "hello", &options);
    assert_eq!(plan.url, "https://tts-en-1.example.com/audio/speech");
    assert_eq!(plan.headers.len(), 1);
    assert_eq!(plan.headers[0].0, "Authorization");
    assert_eq!(plan.headers[0].1, "Bearer key-en");
    match plan.body {
        TtsRequestBody::OpenAiSpeech { model, input, voice, speed_hundredths } => {
            assert_eq!(model, "tts-1");
            assert_eq!(input, "hello");
            assert_eq!(voice, "alloy");
            assert_eq!(speed_hundredths, Some(75));
        },
        other => panic!("expected OpenAiSpeech body, got {:?}", other),
    }
}

#[test]
fn openai_tts_request_without_key_has_no_auth_header() {
    let mut config = make_config("en", 1);
    config.api_key = String::new();
    let options = TtsOptions { voice: None, speed_hundredths: None };
    let plan = build_tts_request(&config, "hello", &options);
    assert!(plan.headers.is_empty());
}

#[test]
fn elevenlabs_tts_request_shape() {
    let mut config = make_config("en", 1);
    config.provider = ApiProvider::Elevenlabs;
    config.base_url = "https://api.elevenlabs.io/".to_string();
    let options = TtsOptions { voice: None, speed_hundredths: None };
    let plan = build_tts_request(&config, "salut", &options);
    assert_eq!(
        plan.url,
        "https://api.elevenlabs.io/v1/text-to-speech/21m00Tcm4TlvDq8ikWAM"
    );
    assert_eq!(plan.headers[0].0, "xi-api-key");
    assert_eq!(plan.headers[1].1, "application/json");
    match plan.body {
        TtsRequestBody::ElevenLabs { text, model_id, speed_hundredths } => {
            assert_eq!(text, "salut");
            assert_eq!(model_id, "tts-1");
            assert_eq!(speed_hundredths, None);
        },
        other => panic!("expected ElevenLabs body, got {:?}", other),
    }
}

#[test]
fn tts_status_classification() {
    assert!(matches!(classify_tts_http_status(401, "x"), VeyaError::InvalidApiKey(_)));
    assert!(matches!(classify_tts_http_status(403, "x"), VeyaError::InvalidApiKey(_)));
    assert!(matches!(
        classify_tts_http_status(402, "x"),
        VeyaError::InsufficientBalance(_)
    ));
    assert!(matches!(
        classify_tts_http_status(429, "x"),
        VeyaError::InsufficientBalance(_)
    ));
    match classify_tts_http_status(503, "oops") {
        VeyaError::TtsFailed(d) => assert_eq!(d, "TTS server error (503): oops"),
        other => panic!("expected TtsFailed, got {:?}", other),
    }
    match classify_tts_http_status(404, "gone") {
        VeyaError::TtsFailed(d) => assert_eq!(d, "TTS HTTP 404: gone"),
        other => panic!("expected TtsFailed, got {:?}", other),
    }
}

#[test]
fn synthesize_result_passes_audio_through_unchanged() {
    let audio = vec![1u8, 2, 3, 255];
    assert_eq!(synthesize_result(200, audio.clone(), "").unwrap(), audio);
    assert!(synthesize_result(500, audio, "boom").is_err());
}
