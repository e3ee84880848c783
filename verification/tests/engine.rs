use hanhcute::engine::{
    build_initial_prompt, choose_whisper_task, join_segment_texts, language_for_engine,
    needs_custom_word_correction, plan_segments, takes_initial_prompt, validate_language,
    whisper_run_extension, whisper_transcript, EngineType, ModelInfo, SegmentJob, SegmentPlan,
    WhisperSegment, WhisperTask,
};

fn info(langs: &[&str]) -> ModelInfo {
    ModelInfo {
        name: "Model".to_string(),
        is_downloaded: true,
        engine_type: EngineType::Whisper,
        supported_languages: langs.iter().map(|s| s.to_string()).collect(),
    }
}

#[test]
fn language_auto_stays_auto() {
    assert_eq!(validate_language("auto", Some(&info(&["en"]))), "auto");
}

#[test]
fn language_supported_is_kept() {
    assert_eq!(validate_language("de", Some(&info(&["en", "de"]))), "de");
}

#[test]
fn language_unsupported_falls_back_to_auto() {
    assert_eq!(validate_language("vi", Some(&info(&["en", "de"]))), "auto");
}

#[test]
fn language_kept_when_model_lists_none_or_is_unknown() {
    assert_eq!(validate_language("vi", Some(&info(&[]))), "vi");
    assert_eq!(validate_language("vi", None), "vi");
}

#[test]
fn whisper_language_mapping() {
    assert_eq!(language_for_engine(EngineType::Whisper, "auto"), None);
    assert_eq!(language_for_engine(EngineType::Whisper, "zh-Hant"), Some("zh".to_string()));
    assert_eq!(language_for_engine(EngineType::Cohere, "zh-Hans"), Some("zh".to_string()));
    assert_eq!(language_for_engine(EngineType::Whisper, "fr"), Some("fr".to_string()));
}

#[test]
fn sense_voice_language_mapping() {
    assert_eq!(language_for_engine(EngineType::SenseVoice, "zh-Hans"), Some("zh".to_string()));
    assert_eq!(language_for_engine(EngineType::SenseVoice, "yue"), Some("yue".to_string()));
    assert_eq!(language_for_engine(EngineType::SenseVoice, "fr"), None);
    assert_eq!(language_for_engine(EngineType::SenseVoice, "auto"), None);
}

#[test]
fn canary_and_others_language_mapping() {
    assert_eq!(language_for_engine(EngineType::Canary, "auto"), None);
    assert_eq!(language_for_engine(EngineType::Canary, "zh-Hans"), Some("zh-Hans".to_string()));
    assert_eq!(language_for_engine(EngineType::Parakeet, "en"), None);
    assert_eq!(language_for_engine(EngineType::GigaAM, "ru"), None);
}

#[test]
fn whisper_translation_task() {
    assert_eq!(choose_whisper_task(true, Some("de")), (WhisperTask::Translate, Some("en".to_string())));
    assert_eq!(choose_whisper_task(true, None), (WhisperTask::Translate, Some("en".to_string())));
    assert_eq!(choose_whisper_task(true, Some("en")), (WhisperTask::Transcribe, None));
    assert_eq!(choose_whisper_task(false, Some("de")), (WhisperTask::Transcribe, None));
}

#[test]
fn decode_prompt_from_custom_words() {
    assert_eq!(build_initial_prompt(&vec![]), None);
    assert_eq!(
        build_initial_prompt(&vec!["Verus".to_string(), "HanhCute".to_string()]),
        Some("Verus, HanhCute".to_string())
    );
}

#[test]
fn architectures_taking_the_prompt() {
    assert!(takes_initial_prompt("whisper"));
    assert!(takes_initial_prompt(""));
    assert!(!takes_initial_prompt("parakeet"));
}

#[test]
fn whisper_extension_options() {
    let e = whisper_run_extension("whisper", Some("w".to_string()), true).unwrap();
    assert_eq!(e.initial_prompt, Some("w".to_string()));
    assert!(!e.condition_on_prev_tokens);
    assert_eq!(e.max_prev_context_tokens, 64);
    assert!(whisper_run_extension("voxtral", None, false).is_none());
}

#[test]
fn custom_word_correction_decision() {
    assert!(needs_custom_word_correction(true, false, true));
    assert!(needs_custom_word_correction(true, true, false));
    assert!(!needs_custom_word_correction(true, true, true));
    assert!(!needs_custom_word_correction(false, false, false));
}

#[test]
fn whisper_segments_become_transcript() {
    let segs = vec![
        WhisperSegment { t0_ms: 0, t1_ms: 1500, text: " Hello ".to_string() },
        WhisperSegment { t0_ms: 1500, t1_ms: 2000, text: "   ".to_string() },
        WhisperSegment { t0_ms: 2000, t1_ms: 3000, text: "world".to_string() },
    ];
    let r = whisper_transcript(&segs, "ignored");
    assert_eq!(r.text, "Hello\nworld");
    let kept = r.segments.unwrap();
    assert_eq!(kept.len(), 2);
    assert_eq!((kept[0].start, kept[0].end), (0, 24000));
    assert_eq!(kept[1].text, "world");
}

#[test]
fn whisper_without_segments_uses_trimmed_text() {
    let r = whisper_transcript(&vec![], "  full text ");
    assert_eq!(r.text, "full text");
    assert!(r.segments.unwrap().is_empty());
}

#[test]
fn segment_plan_empty() {
    assert!(matches!(plan_segments(100, &vec![]), SegmentPlan::Nothing));
    assert!(matches!(plan_segments(0, &vec![(0, 10)]), SegmentPlan::Nothing));
}

#[test]
fn segment_plan_single_whole() {
    assert!(matches!(plan_segments(100, &vec![(0, 99)]), SegmentPlan::Whole));
    assert!(matches!(plan_segments(100, &vec![(0, 500)]), SegmentPlan::Whole));
}

#[test]
fn segment_plan_pieces() {
    match plan_segments(100, &vec![(10, 50), (60, 500), (120, 130)]) {
        SegmentPlan::Pieces(jobs) => assert_eq!(
            jobs,
            vec![
                SegmentJob { start: 10, end: 50, skip_unload: true },
                SegmentJob { start: 60, end: 100, skip_unload: true },
            ]
        ),
        _ => panic!("expected pieces"),
    }
}

#[test]
fn segment_plan_last_segment_allows_unload() {
    match plan_segments(100, &vec![(5, 10)]) {
        SegmentPlan::Pieces(jobs) => {
            assert_eq!(jobs, vec![SegmentJob { start: 5, end: 10, skip_unload: false }])
        }
        _ => panic!("expected pieces"),
    }
}

#[test]
fn segment_texts_joined_with_blank_lines() {
    let results = vec![Some("one".to_string()), None, Some(String::new()), Some("two".to_string())];
    assert_eq!(join_segment_texts(&results), "one\n\ntwo");
}
