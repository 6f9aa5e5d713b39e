use veya_core::config::resolve_active_text_config;
use veya_core::config::resolve_active_vision_config;
use veya_core::config::resolve_text_config;
use veya_core::config::resolve_tts_configs;
use veya_core::config::ApiConfig;
use veya_core::config::ApiConfigRow;
use veya_core::config::ApiProvider;
use veya_core::config::ModelType;
use veya_core::error::VeyaError;
use veya_core::settings::AppSettings;

fn row(id: &str, provider: &str, model_type: &str, active: bool) -> ApiConfigRow {
    ApiConfigRow {
        id: id.to_string(),
        name: format!("cfg {}", id),
        provider: provider.to_string(),
        model_type: model_type.to_string(),
        base_url: format!("https://{}.example.com", id),
        model_name: format!("model-{}", id),
        api_key_ref: format!("api_key_{}", id),
        language: None,
        is_local: false,
        is_active: active,
        created_at: "2024-01-01 00:00:00".to_string(),
    }
}

#[test]
fn provider_strings_round_trip() {
    for p in [
        ApiProvider::Openai,
        ApiProvider::Anthropic,
        ApiProvider::Elevenlabs,
        ApiProvider::Ollama,
        ApiProvider::Custom,
    ] {
        assert_eq!(ApiProvider::from_str(p.as_str()).unwrap(), p);
    }
    assert!(matches!(
        ApiProvider::from_str("gemini"),
        Err(VeyaError::StorageError(_))
    ));
}

#[test]
fn model_type_strings_round_trip() {
    for m in [ModelType::Text, ModelType::Vision, ModelType::Tts] {
        assert_eq!(ModelType::from_str(m.as_str()).unwrap(), m);
    }
    assert!(matches!(
        ModelType::from_str("audio"),
        Err(VeyaError::StorageError(_))
    ));
}

#[test]
fn from_row_converts_and_hides_the_key() {
    let r = row("c1", "openai", "text", true);
    let config = ApiConfig::from_row(&r).unwrap();
    assert_eq!(config.id, "c1");
    assert_eq!(config.provider, ApiProvider::Openai);
    assert_eq!(config.model_type, ModelType::Text);
    assert_eq!(config.api_key, None);
    assert_eq!(config.api_key_ref, Some("api_key_c1".to_string()));
    assert!(config.is_active);
}

#[test]
fn from_row_rejects_unknown_provider() {
    let r = row("c1", "altavista", "text", true);
    assert!(matches!(
        ApiConfig::from_row(&r),
        Err(VeyaError::StorageError(_))
    ));
}

#[test]
fn text_resolution_takes_first_text_row() {
    let rows = vec![
        row("tts1", "openai", "tts", true),
        row("t1", "openai", "text", false),
        row("t2", "anthropic", "text", true),
    ];
    assert_eq!(resolve_text_config(&rows).unwrap().id, "t1");
    // The active variant skips the inactive one.
    assert_eq!(resolve_active_text_config(&rows).unwrap().id, "t2");
}

#[test]
fn text_resolution_without_any_row_fails() {
    let rows = vec![row("tts1", "openai", "tts", true)];
    assert!(matches!(
        resolve_text_config(&rows),
        Err(VeyaError::ModelUnavailable(_))
    ));
}

#[test]
fn vision_resolution_falls_back_to_text() {
    let rows = vec![row("t1", "openai", "text", true), row("v1", "openai", "vision", false)];
    assert_eq!(resolve_active_vision_config(&rows).unwrap().id, "t1");
    let rows = vec![row("t1", "openai", "text", true), row("v1", "openai", "vision", true)];
    assert_eq!(resolve_active_vision_config(&rows).unwrap().id, "v1");
}

#[test]
fn tts_resolution_collects_all_speech_rows() {
    let rows = vec![
        row("t1", "openai", "text", true),
        row("s1", "openai", "tts", true),
        row("s2", "elevenlabs", "tts", false),
    ];
    let configs = resolve_tts_configs(&rows).unwrap();
    assert_eq!(configs.len(), 2);
    assert_eq!(configs[0].id, "s1");
    assert_eq!(configs[1].id, "s2");
    assert!(matches!(
        resolve_tts_configs(&vec![row("t1", "openai", "text", true)]),
        Err(VeyaError::TtsFailed(_))
    ));
}

#[test]
fn settings_defaults_and_merge() {
    let d = AppSettings::default();
    assert!(d.ai_completion_enabled);
    assert_eq!(d.cache_max_size_mb, 500);
    assert_eq!(d.cache_auto_clean_days, 30);
    assert_eq!(d.retry_count, 3);
    assert_eq!(d.locale, "zh-CN");

    // Stored values override; junk falls back to defaults.
    let merged = AppSettings::from_stored(
        Some("false".to_string()),
        Some("1024".to_string()),
        Some("7".to_string()),
        Some("not a number".to_string()),
        Some("Ctrl+Alt+X".to_string()),
        None,
    );
    assert!(!merged.ai_completion_enabled);
    assert_eq!(merged.cache_max_size_mb, 1024);
    assert_eq!(merged.cache_auto_clean_days, 7);
    assert_eq!(merged.retry_count, 3);
    assert_eq!(merged.shortcut_capture, "Ctrl+Alt+X");
    assert_eq!(merged.locale, "zh-CN");
}

#[test]
fn settings_round_trip_through_pairs() {
    let settings = AppSettings {
        ai_completion_enabled: false,
        cache_max_size_mb: 1024,
        cache_auto_clean_days: 7,
        retry_count: 5,
        shortcut_capture: "Ctrl+Alt+X".to_string(),
        locale: "en-US".to_string(),
    };
    let pairs = settings.to_pairs();
    assert_eq!(pairs.len(), 6);
    assert_eq!(pairs[1], ("cache_max_size_mb".to_string(), "1024".to_string()));
    let get = |key: &str| {
        pairs
            .iter()
            .find(|(k, _)| k == key)
            .map(|(_, v)| v.clone())
    };
    let loaded = AppSettings::from_stored(
        get("ai_completion_enabled"),
        get("cache_max_size_mb"),
        get("cache_auto_clean_days"),
        get("retry_count"),
        get("shortcut_capture"),
        get("locale"),
    );
    assert_eq!(loaded.ai_completion_enabled, settings.ai_completion_enabled);
    assert_eq!(loaded.cache_max_size_mb, settings.cache_max_size_mb);
    assert_eq!(loaded.cache_auto_clean_days, settings.cache_auto_clean_days);
    assert_eq!(loaded.retry_count, settings.retry_count);
    assert_eq!(loaded.shortcut_capture, settings.shortcut_capture);
    assert_eq!(loaded.locale, settings.locale);
}

#[test]
fn error_messages_carry_kind_prefix_and_detail() {
    let e = VeyaError::NetworkTimeout("socket closed".to_string());
    assert_eq!(e.message(), "网络超时: socket closed");
    assert!(e.is_retryable());
    let e = VeyaError::Generic("plain".to_string());
    assert_eq!(e.message(), "plain");
    assert!(!e.is_retryable());
}

#[test]
fn retryability_is_a_function_of_the_kind() {
    let retryable = [
        VeyaError::NetworkTimeout(String::new()),
        VeyaError::ModelUnavailable(String::new()),
        VeyaError::TtsFailed(String::new()),
    ];
    let terminal = [
        VeyaError::InvalidApiKey(String::new()),
        VeyaError::InsufficientBalance(String::new()),
        VeyaError::OcrFailed(String::new()),
        VeyaError::StorageError(String::new()),
        VeyaError::PermissionDenied(String::new()),
        VeyaError::Generic(String::new()),
    ];
    for e in &retryable {
        assert!(e.is_retryable());
    }
    for e in &terminal {
        assert!(!e.is_retryable());
    }
}
