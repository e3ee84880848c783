use hanhcute::engine::{EngineType, ModelInfo};
use hanhcute::manager::{
    classify_whisper_failure, load_failure_message, load_refusal_message, plan_model_load,
    IdleAction, LoadRefusal, ModelStateEvent, TranscriptionError, TranscriptionManager,
};

type Manager = TranscriptionManager<&'static str, u32>;

#[test]
fn fresh_manager_has_nothing_loaded() {
    let m = Manager::new(0);
    assert!(!m.is_model_loaded());
    assert!(!m.is_loading());
    assert_eq!(m.get_current_model(), None);
    assert!(!m.is_file_transcription_cancelled());
}

#[test]
fn only_one_load_at_a_time() {
    let mut m = Manager::new(0);
    let guard = m.try_start_loading().expect("first load");
    assert!(m.try_start_loading().is_none());
    assert!(m.initiate_model_load().is_none());
    m.finish_loading(guard);
    assert!(m.try_start_loading().is_some());
}

#[test]
fn no_background_load_when_loaded() {
    let mut m = Manager::new(0);
    m.install_engine("base".to_string(), "engine", None, 5);
    assert!(m.initiate_model_load().is_none());
    assert!(!m.is_loading());
}

#[test]
fn install_then_unload() {
    let mut m = Manager::new(0);
    m.install_engine("small".to_string(), "engine", Some(7), 5);
    assert!(m.is_model_loaded());
    assert_eq!(m.get_current_model(), Some("small".to_string()));
    assert_eq!(m.cancel_token(), Some(&7));
    m.unload_model();
    assert!(!m.is_model_loaded());
    assert_eq!(m.get_current_model(), None);
    assert_eq!(m.cancel_token(), None);
}

#[test]
fn cancel_and_reset() {
    let mut m = Manager::new(0);
    m.cancel_file_transcription();
    assert!(m.is_file_transcription_cancelled());
    m.reset_file_transcription_cancelled();
    assert!(!m.is_file_transcription_cancelled());
}

#[test]
fn engine_checked_out_and_back() {
    let mut m = Manager::new(0);
    m.install_engine("m".to_string(), "engine", None, 0);
    let e = m.take_engine().unwrap();
    assert!(!m.is_model_loaded());
    m.put_back_engine(e);
    assert!(m.is_model_loaded());
    let _lost = m.take_engine();
    m.forget_model_after_panic();
    assert_eq!(m.get_current_model(), None);
}

#[test]
fn immediate_unload() {
    let mut m = Manager::new(0);
    assert!(!m.maybe_unload_immediately(true));
    m.install_engine("m".to_string(), "engine", None, 0);
    assert!(!m.maybe_unload_immediately(false));
    assert!(m.maybe_unload_immediately(true));
    assert!(!m.is_model_loaded());
}

#[test]
fn idle_watcher_decisions() {
    let mut m = Manager::new(0);
    m.install_engine("m".to_string(), "engine", None, 1_000);
    assert_eq!(m.idle_action(true, Some(5), false, 100_000), IdleAction::Skip);
    assert_eq!(m.idle_action(false, Some(5), true, 100_000), IdleAction::KeepAlive);
    assert_eq!(m.idle_action(false, Some(5), false, 6_000), IdleAction::Nothing);
    assert_eq!(m.idle_action(false, Some(5), false, 6_001), IdleAction::Unload);
    assert_eq!(m.idle_action(false, None, false, 1_000_000), IdleAction::Nothing);
    assert_eq!(m.idle_action(false, Some(5), false, 0), IdleAction::Nothing);
    m.touch_activity(6_000);
    assert_eq!(m.idle_action(false, Some(5), false, 6_001), IdleAction::Nothing);
    m.unload_model();
    assert_eq!(m.idle_action(false, Some(5), false, 100_000), IdleAction::Nothing);
}

#[test]
fn model_state_events() {
    let e = ModelStateEvent::unloaded();
    assert_eq!(e.event_type, "unloaded");
    assert!(e.model_id.is_none() && e.error.is_none());
    let p = ModelStateEvent::unloaded_after_panic("boom");
    assert_eq!(p.error, Some("Engine panicked: boom".to_string()));
    let s = ModelStateEvent::loading_started("base");
    assert_eq!((s.event_type.as_str(), s.model_id.as_deref()), ("loading_started", Some("base")));
    let f = ModelStateEvent::loading_failed("base", "Base", "Model not downloaded");
    assert_eq!(f.model_name.as_deref(), Some("Base"));
    assert_eq!(f.error.as_deref(), Some("Model not downloaded"));
    let c = ModelStateEvent::loading_completed("base", "Base");
    assert_eq!(c.event_type, "loading_completed");
    assert!(c.error.is_none());
}

fn model(downloaded: bool) -> ModelInfo {
    ModelInfo {
        name: "Parakeet V3".to_string(),
        is_downloaded: downloaded,
        engine_type: EngineType::Parakeet,
        supported_languages: vec![],
    }
}

#[test]
fn load_planning() {
    assert!(matches!(plan_model_load(None), Err(LoadRefusal::NotFound)));
    assert!(matches!(plan_model_load(Some(&model(false))), Err(LoadRefusal::NotDownloaded)));
    assert_eq!(plan_model_load(Some(&model(true))).ok(), Some(EngineType::Parakeet));
}

#[test]
fn load_messages() {
    assert_eq!(load_refusal_message(&LoadRefusal::NotFound, "x"), "Model not found: x");
    assert_eq!(load_refusal_message(&LoadRefusal::NotDownloaded, "x"), "Model not downloaded");
    assert_eq!(
        load_failure_message(EngineType::MoonshineStreaming, "ms", "bad file"),
        "Failed to load moonshine streaming model ms: bad file"
    );
    assert_eq!(
        load_failure_message(EngineType::SenseVoice, "sv", "e"),
        "Failed to load SenseVoice model sv: e"
    );
}

#[test]
fn transcription_error_messages() {
    assert_eq!(TranscriptionError::NotLoaded.message(), "Model is not loaded for transcription.");
    assert_eq!(
        TranscriptionError::Panicked("oops".to_string()).message(),
        "Transcription engine panicked: oops. The model has been unloaded and will reload on next attempt."
    );
    assert_eq!(
        TranscriptionError::EngineFailed(EngineType::GigaAM, "x".to_string()).message(),
        "GigaAM transcription failed: x"
    );
    assert_eq!(
        TranscriptionError::LoadFailed.message(),
        "Model failed to load after auto-load attempt. Please check your model settings."
    );
}

#[test]
fn cancelled_whisper_run() {
    assert_eq!(classify_whisper_failure(true, true, "aborted".to_string()).message(), "Cancelled");
    assert_eq!(
        classify_whisper_failure(true, false, "aborted".to_string()).message(),
        "Whisper transcription failed: aborted"
    );
    assert_eq!(
        classify_whisper_failure(false, true, "bad".to_string()).message(),
        "Whisper transcription failed: bad"
    );
}
