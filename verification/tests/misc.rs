use hanhcute::cli::CliArgs;
use hanhcute::commands::{FileTranscriptionProgressEvent, ModelLoadStatus, ProgressStage};
use hanhcute::manager::TranscriptionManager;
use hanhcute::vad_frames::{silence_frame, split_into_frames, VAD_FRAME_SIZE};

#[test]
fn cli_defaults_all_off() {
    let a = CliArgs::default();
    assert!(!a.start_hidden && !a.no_tray && !a.toggle_transcription);
    assert!(!a.toggle_post_process && !a.cancel && !a.debug);
}

#[test]
fn load_status_of_manager() {
    let mut m: TranscriptionManager<u8, u8> = TranscriptionManager::new(0);
    let s = ModelLoadStatus::of(&m);
    assert!(!s.is_loaded && s.current_model.is_none());
    m.install_engine("tiny".to_string(), 0, None, 0);
    let s = ModelLoadStatus::of(&m);
    assert!(s.is_loaded);
    assert_eq!(s.current_model.as_deref(), Some("tiny"));
}

#[test]
fn progress_event_stage_names() {
    let e = FileTranscriptionProgressEvent::new(ProgressStage::Transcribing, None, Some(3));
    assert_eq!((e.stage.as_str(), e.progress), ("transcribing", Some(3)));
    assert_eq!(FileTranscriptionProgressEvent::new(ProgressStage::LoadingModel, None, None).stage, "loading_model");
    assert_eq!(FileTranscriptionProgressEvent::new(ProgressStage::PostProcessing, None, None).stage, "post_processing");
    assert_eq!(FileTranscriptionProgressEvent::new(ProgressStage::Complete, Some("t".into()), Some(100)).stage, "complete");
}

#[test]
fn vad_frames_padded() {
    let samples: Vec<i32> = (1..=1000).collect();
    let frames = split_into_frames(&samples, 0);
    assert_eq!(frames.len(), 3);
    assert!(frames.iter().all(|f| f.len() == VAD_FRAME_SIZE));
    assert_eq!(frames[2][..40], samples[960..]);
    assert!(frames[2][40..].iter().all(|&x| x == 0));
    let flat: Vec<i32> = frames.concat();
    assert_eq!(flat[..1000], samples[..]);
}

#[test]
fn vad_frames_exact_and_empty() {
    let samples = vec![1; 960];
    assert_eq!(split_into_frames(&samples, 0).len(), 2);
    assert!(split_into_frames::<i32>(&[], 0).is_empty());
    assert_eq!(silence_frame(0.0f32), vec![0.0f32; VAD_FRAME_SIZE]);
}
