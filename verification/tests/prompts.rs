use veya_core::cast::build_script_prompt;
use veya_core::cast::PodcastInput;
use veya_core::cast::PodcastMode;
use veya_core::cast::PodcastOptions;
use veya_core::cast::PodcastSource;
use veya_core::cast::SpeedMode;
use veya_core::insight::build_analysis_prompt;
use veya_core::vision::build_ocr_completion_prompt;

#[test]
fn build_prompt_contains_text() {
    let messages = build_analysis_prompt("Hello world", "en");
    assert_eq!(messages.len(), 2);
    assert_eq!(messages[0].role, "system");
    assert!(messages[1].content.contains("Hello world"));
    assert!(messages[1].content.contains("en"));
}

#[test]
fn script_prompt_carries_both_axes() {
    let input = PodcastInput {
        content: "some notes".to_string(),
        source: PodcastSource::Custom,
    };
    let options = PodcastOptions {
        speed: SpeedMode::Slow,
        mode: PodcastMode::Bilingual,
        target_language: "fr".to_string(),
    };
    let messages = build_script_prompt(&input, &options);
    assert_eq!(messages.len(), 2);
    assert_eq!(messages[0].role, "system");
    assert!(messages[0].content.contains("Target language: fr"));
    assert!(messages[0].content.contains("bilingual podcast script"));
    assert!(messages[0].content.contains("Speak slowly and clearly."));
    assert_eq!(messages[1].role, "user");
    assert_eq!(messages[1].content, "some notes");
}

#[test]
fn script_prompt_immersive_normal() {
    let input = PodcastInput {
        content: "c".to_string(),
        source: PodcastSource::TextInsight,
    };
    let options = PodcastOptions {
        speed: SpeedMode::Normal,
        mode: PodcastMode::Immersive,
        target_language: "en".to_string(),
    };
    let messages = build_script_prompt(&input, &options);
    assert!(messages[0].content.contains("immersive podcast script"));
    assert!(messages[0].content.contains("natural conversational pace"));
}

#[test]
fn ocr_prompt_wraps_recognized_text() {
    let messages = build_ocr_completion_prompt("scanned words");
    assert_eq!(messages.len(), 2);
    assert_eq!(messages[0].role, "system");
    assert!(messages[0].content.contains("[CORRECTED]"));
    assert_eq!(messages[1].role, "user");
    assert_eq!(messages[1].content, "OCR recognized text:\nscanned words");
}
