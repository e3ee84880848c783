use hanhcute::decoding::{DecodeBuffers, DecodeStep, MediaDecodeFailure, TrackChooser, TrackProbe};
use hanhcute::file_transcription::{chunk_failure, FileTranscriptionError};
use hanhcute::manager::{IdleAction, RunAction, RunEvent, RunPhase, RunState, TranscriptionManager};
use hanhcute::timestamps::{segment_offsets_fit, EngineTranscript, TranscriptionSegment};
use hanhcute::vad_frames::{split_into_frames, trailing_silence, VAD_FRAME_SIZE, VAD_TRAILING_FRAMES};

type Manager = TranscriptionManager<&'static str, u32>;

#[test]
fn second_install_replaces_engine_and_token() {
    let mut m = Manager::new(0);
    m.install_engine("a".to_string(), "first", Some(1), 0);
    m.install_engine("b".to_string(), "second", Some(2), 0);
    assert_eq!(m.cancel_token(), Some(&2));
    assert_eq!(m.take_engine(), Some("second"));
    m.put_back_engine("third");
    assert_eq!(m.take_engine(), Some("third"));
}

#[test]
fn install_without_token_keeps_the_old_one() {
    let mut m = Manager::new(0);
    m.install_engine("a".to_string(), "first", Some(1), 0);
    m.install_engine("b".to_string(), "second", None, 0);
    assert_eq!(m.cancel_token(), Some(&1));
}

#[test]
fn loaded_exactly_when_model_recorded() {
    let mut m = Manager::new(0);
    assert_eq!(m.is_model_loaded(), m.get_current_model().is_some());
    m.install_engine("a".to_string(), "e", None, 0);
    assert_eq!(m.is_model_loaded(), m.get_current_model().is_some());
    let e = m.take_engine().unwrap();
    m.put_back_engine(e);
    assert_eq!(m.is_model_loaded(), m.get_current_model().is_some());
    let _gone = m.take_engine();
    m.forget_model_after_panic();
    assert_eq!(m.is_model_loaded(), m.get_current_model().is_some());
}

#[test]
fn no_idle_unload_within_limit_after_activity() {
    let mut m = Manager::new(0);
    m.install_engine("a".to_string(), "e", None, 0);
    m.touch_activity(10_000);
    assert_eq!(m.idle_action(false, Some(5), false, 15_000), IdleAction::Nothing);
    assert_eq!(m.idle_action(false, Some(5), true, 60_000), IdleAction::KeepAlive);
    assert_eq!(m.idle_action(false, Some(5), false, 15_001), IdleAction::Unload);
}

#[test]
fn run_with_empty_audio_returns_empty() {
    let mut run = RunState::new(true);
    assert_eq!(run.step(RunEvent::Begin { audio_empty: true }), RunAction::ReturnEmpty);
    assert_eq!(run.phase, RunPhase::Done);
    assert_eq!(run.step(RunEvent::LoadSettled { loaded: true }), RunAction::Ignore);
}

#[test]
fn run_fails_when_not_loaded_after_wait() {
    let mut run = RunState::new(false);
    assert_eq!(run.step(RunEvent::Begin { audio_empty: false }), RunAction::WaitForLoad);
    assert_eq!(run.step(RunEvent::LoadSettled { loaded: false }), RunAction::FailNotLoaded);
}

#[test]
fn run_fails_when_engine_gone() {
    let mut run = RunState::new(false);
    run.step(RunEvent::Begin { audio_empty: false });
    assert_eq!(run.step(RunEvent::LoadSettled { loaded: true }), RunAction::CheckOutEngine);
    assert_eq!(run.step(RunEvent::CheckedOut { got_engine: false }), RunAction::FailLoadFailed);
}

#[test]
fn successful_run_checks_unload_unless_skipped() {
    for skip in [false, true] {
        let mut run = RunState::new(skip);
        run.step(RunEvent::Begin { audio_empty: false });
        run.step(RunEvent::LoadSettled { loaded: true });
        assert_eq!(run.step(RunEvent::CheckedOut { got_engine: true }), RunAction::RunEngine);
        assert_eq!(run.step(RunEvent::EngineReturned { ok: true }), RunAction::PutBackAndCheckOffsets);
        assert_eq!(
            run.step(RunEvent::OffsetsChecked { fit: true }),
            RunAction::ReturnText { unload_check: !skip }
        );
    }
}

#[test]
fn failed_and_panicked_runs() {
    let mut run = RunState::new(false);
    run.step(RunEvent::Begin { audio_empty: false });
    run.step(RunEvent::LoadSettled { loaded: true });
    run.step(RunEvent::CheckedOut { got_engine: true });
    assert_eq!(run.step(RunEvent::EngineReturned { ok: false }), RunAction::PutBackAndFail);

    let mut run = RunState::new(false);
    run.step(RunEvent::Begin { audio_empty: false });
    run.step(RunEvent::LoadSettled { loaded: true });
    run.step(RunEvent::CheckedOut { got_engine: true });
    assert_eq!(run.step(RunEvent::EnginePanicked), RunAction::ForgetModelAndFail);

    let mut run = RunState::new(false);
    run.step(RunEvent::Begin { audio_empty: false });
    run.step(RunEvent::LoadSettled { loaded: true });
    run.step(RunEvent::CheckedOut { got_engine: true });
    run.step(RunEvent::EngineReturned { ok: true });
    assert_eq!(run.step(RunEvent::OffsetsChecked { fit: false }), RunAction::FailOutOfRange);
}

#[test]
fn first_made_track_is_chosen() {
    let mut c = TrackChooser::new();
    c.record(TrackProbe::Unsupported);
    assert!(!c.is_decided());
    c.record(TrackProbe::Failed("bad".to_string()));
    c.record(TrackProbe::Made);
    assert!(c.is_decided());
    assert!(matches!(c.result(), Ok(2)));
}

#[test]
fn no_track_reports_last_error() {
    let mut c = TrackChooser::new();
    c.record(TrackProbe::Failed("one".to_string()));
    c.record(TrackProbe::Failed("two".to_string()));
    c.record(TrackProbe::Unsupported);
    match c.result() {
        Err(f) => assert_eq!(f.message(), "No decodable audio track found: two"),
        Ok(_) => panic!("no track expected"),
    }
    let c = TrackChooser::new();
    match c.result() {
        Err(MediaDecodeFailure::NoDecodableTrack(None)) => {}
        _ => panic!("no track expected"),
    }
}

#[test]
fn cancelled_chunk_takes_cancelled_path() {
    assert_eq!(chunk_failure("Cancelled".to_string(), true).message(), "Cancelled");
    assert!(matches!(chunk_failure("x".to_string(), true), FileTranscriptionError::Cancelled));
    assert_eq!(
        chunk_failure("Whisper transcription failed: oom".to_string(), false).message(),
        "Transcription failed: Whisper transcription failed: oom"
    );
}

#[test]
fn offsets_fit_check() {
    let seg = TranscriptionSegment { start: 10, end: 20, text: "a".to_string() };
    let r = EngineTranscript { text: "a".to_string(), segments: Some(vec![seg]) };
    assert!(segment_offsets_fit(&r, 100, 50));
    assert!(!segment_offsets_fit(&r, u64::MAX - 15, 0));
    assert!(!segment_offsets_fit(&r, u64::MAX - 30, 31));
    let plain = EngineTranscript { text: "a".to_string(), segments: None };
    assert!(segment_offsets_fit(&plain, u64::MAX, 0));
}

#[test]
fn short_chunk_then_end_stays_at_end() {
    let mut b: DecodeBuffers<i32> = DecodeBuffers::new();
    b.push_mono(vec![1, 2, 3]);
    b.mark_eof();
    let mut out = Vec::new();
    assert!(matches!(b.step(&mut out, 10, 0), DecodeStep::ReturnChunk));
    assert_eq!(out, vec![1, 2, 3]);
    for _ in 0..3 {
        let mut out = Vec::new();
        assert!(matches!(b.step(&mut out, 10, 0), DecodeStep::ReturnEnd));
        assert!(out.is_empty());
    }
}

#[test]
fn framing_a_concatenation_at_a_frame_boundary() {
    let a: Vec<i32> = (0..960).collect();
    let b: Vec<i32> = (1000..1500).collect();
    let mut ab = a.clone();
    ab.extend_from_slice(&b);
    let mut parts = split_into_frames(&a, 0);
    parts.extend(split_into_frames(&b, 0));
    assert_eq!(split_into_frames(&ab, 0), parts);
    assert_eq!(parts.len(), 4);
    assert_eq!(parts[3][19], 1499);
    assert_eq!(parts[3][20], 0);
    assert!(split_into_frames::<i32>(&[], 0).is_empty());
}

#[test]
fn flush_feeds_twenty_silent_frames() {
    let s = trailing_silence(0i32);
    assert_eq!(s.len(), VAD_TRAILING_FRAMES);
    assert!(s.iter().all(|f| f.len() == VAD_FRAME_SIZE && f.iter().all(|x| *x == 0)));
}

#[test]
fn decoder_reports_its_source_rate() {
    let mut b: DecodeBuffers<i32> = DecodeBuffers::new();
    assert_eq!(b.sample_rate(), 0);
    assert!(b.observe_rate(44100));
    assert_eq!(b.sample_rate(), 44100);
    assert!(!b.observe_rate(48000));
    assert_eq!(b.sample_rate(), 44100);
}

#[test]
fn take_engine_returns_the_loaded_engine() {
    let mut m = Manager::new(0);
    assert_eq!(m.take_engine(), None);
    m.install_engine("a".to_string(), "e", None, 0);
    assert_eq!(m.take_engine(), Some("e"));
    assert_eq!(m.take_engine(), None);
}
