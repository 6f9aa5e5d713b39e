use veya_core::cast::split_script_segments;
use veya_core::cast::CastEngine;
use veya_core::cast::CastEngineProgress;
use veya_core::cast::EngineAction;
use veya_core::cast::PodcastInput;
use veya_core::cast::PodcastMode;
use veya_core::cast::PodcastOptions;
use veya_core::cast::PodcastSource;
use veya_core::cast::SpeedMode;
use veya_core::error::VeyaError;

fn default_options() -> PodcastOptions {
    PodcastOptions {
        speed: SpeedMode::Normal,
        mode: PodcastMode::Bilingual,
        target_language: "en".to_string(),
    }
}

fn default_input() -> PodcastInput {
    PodcastInput {
        content: "an article about birds".to_string(),
        source: PodcastSource::Custom,
    }
}

/// Drives a full successful run, with fixed per-segment audio, and
/// returns the recorded event sequence and the bytes written.
fn run_pipeline(script: &str) -> (Vec<CastEngineProgress>, Vec<u8>) {
    let (mut engine, first, _messages) =
        CastEngine::start(&default_input(), &default_options()).unwrap();
    let mut events = vec![first];
    let (mut evs, mut action) = engine.on_script(Ok(script.to_string()));
    events.append(&mut evs);
    let mut segment_counter = 0u8;
    let mut written: Vec<u8> = Vec::new();
    loop {
        match action {
            EngineAction::RequestSynthesis(_text) => {
                segment_counter += 1;
                let audio = vec![segment_counter, segment_counter];
                let (mut evs, next) = engine.on_audio(Ok(audio));
                events.append(&mut evs);
                action = next;
            },
            EngineAction::WriteOutput(bytes) => {
                written = bytes;
                let (mut evs, next) = engine.on_written(Ok("/tmp/out.mp3".to_string()));
                events.append(&mut evs);
                action = next;
            },
            EngineAction::Halt => break,
        }
    }
    (events, written)
}

fn distinct_stages(events: &[CastEngineProgress]) -> Vec<String> {
    let mut stages: Vec<String> = Vec::new();
    for ev in events {
        if stages.last() != Some(&ev.progress_type) {
            stages.push(ev.progress_type.clone());
        }
    }
    stages
}

#[test]
fn pipeline_emits_all_stages_in_order() {
    let (events, written) = run_pipeline("para one\n\npara two\n\npara three");
    let stages = distinct_stages(&events);
    assert_eq!(
        stages,
        vec!["script_generating", "script_done", "tts_progress", "done"]
    );
    // One tts_progress per segment.
    let tts_count = events.iter().filter(|e| e.progress_type == "tts_progress").count();
    assert_eq!(tts_count, 3);
    // Audio is the in-order concatenation of every segment's bytes.
    assert_eq!(written, vec![1, 1, 2, 2, 3, 3]);
}

#[test]
fn pipeline_progress_is_monotone_and_ends_at_100() {
    let (events, _) = run_pipeline("a\n\nb\n\nc\n\nd");
    let mut prev = 0u32;
    for ev in &events {
        if let Some(p) = ev.progress {
            assert!(p >= prev, "progress went backwards: {} -> {}", prev, p);
            prev = p;
        }
    }
    assert_eq!(events.last().unwrap().progress, Some(100));
    // Synthesis percentages stay clamped to at most 90 before `done`.
    for ev in events.iter().filter(|e| e.progress_type == "tts_progress") {
        let p = ev.progress.unwrap();
        assert!(p >= 30 && p <= 90);
    }
}

#[test]
fn pipeline_single_segment_jumps_from_90_to_100() {
    let (events, _) = run_pipeline("only one paragraph");
    let tts: Vec<u32> = events
        .iter()
        .filter(|e| e.progress_type == "tts_progress")
        .map(|e| e.progress.unwrap())
        .collect();
    assert_eq!(tts, vec![90]);
    assert_eq!(events.last().unwrap().progress, Some(100));
}

#[test]
fn pipeline_preview_truncates_to_200_chars() {
    let long_script = "x".repeat(300);
    let (events, _) = run_pipeline(&long_script);
    let preview = events
        .iter()
        .find(|e| e.progress_type == "script_done")
        .unwrap()
        .script_preview
        .clone()
        .unwrap();
    assert_eq!(preview.chars().count(), 201);
    assert!(preview.ends_with('…'));
    let short = "short script";
    let (events, _) = run_pipeline(short);
    let preview = events
        .iter()
        .find(|e| e.progress_type == "script_done")
        .unwrap()
        .script_preview
        .clone()
        .unwrap();
    assert_eq!(preview, short);
}

#[test]
fn pipeline_rejects_blank_input() {
    let input = PodcastInput {
        content: "   \n ".to_string(),
        source: PodcastSource::Custom,
    };
    match CastEngine::start(&input, &default_options()) {
        Err(VeyaError::Generic(_)) => {},
        other => panic!("expected Generic error, got {:?}", other.map(|_| ())),
    }
}

#[test]
fn pipeline_script_failure_emits_single_error_event() {
    let (mut engine, _first, _messages) =
        CastEngine::start(&default_input(), &default_options()).unwrap();
    let (events, action) =
        engine.on_script(Err(VeyaError::InvalidApiKey("bad key".to_string())));
    assert_eq!(events.len(), 1);
    assert_eq!(events[0].progress_type, "error");
    assert!(events[0].error.as_ref().unwrap().contains("bad key"));
    assert!(matches!(action, EngineAction::Halt));
}

#[test]
fn pipeline_synthesis_failure_discards_partial_audio() {
    let (mut engine, _first, _messages) =
        CastEngine::start(&default_input(), &default_options()).unwrap();
    let (_evs, action) = engine.on_script(Ok("a\n\nb".to_string()));
    assert!(matches!(action, EngineAction::RequestSynthesis(_)));
    let (_evs, _action) = engine.on_audio(Ok(vec![9, 9]));
    let (events, action) = engine.on_audio(Err(VeyaError::TtsFailed("synth down".to_string())));
    assert_eq!(events.len(), 1);
    assert_eq!(events[0].progress_type, "error");
    assert!(matches!(action, EngineAction::Halt));
    assert!(engine.audio.is_empty());
}

#[test]
fn split_on_blank_lines() {
    assert_eq!(split_script_segments("a\n\nb\n\nc"), vec!["a", "b", "c"]);
}

#[test]
fn split_falls_back_to_single_newlines() {
    assert_eq!(split_script_segments("a\nb"), vec!["a", "b"]);
}

#[test]
fn split_blank_script_yields_whole_trimmed_input() {
    assert_eq!(split_script_segments("   "), vec![""]);
}

#[test]
fn split_trims_and_drops_blank_segments() {
    assert_eq!(
        split_script_segments("  first \n\n   \n\n second  "),
        vec!["first", "second"]
    );
}
