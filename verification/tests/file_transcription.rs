use hanhcute::file_transcription::{
    check_wav_sample_count, require_speech, FileTranscriptionError, FileTranscriptionSession,
    MonotonicProgress,
};

#[test]
fn progress_never_goes_back() {
    let mut p = MonotonicProgress::new();
    assert_eq!(p.advance(10), 10);
    assert_eq!(p.advance(5), 10);
    assert_eq!(p.advance(42), 42);
    assert_eq!(p.advance(-3), 42);
}

#[test]
fn speech_is_flushed_when_speech_ends() {
    let mut s: FileTranscriptionSession<i32> = FileTranscriptionSession::new();
    assert!(s.on_decoded(10, vec![1, 2], true).is_none());
    assert!(s.on_decoded(10, vec![3], true).is_none());
    let job = s.on_decoded(10, vec![4], false).expect("speech ended");
    assert_eq!(job.samples, vec![1, 2, 3, 4]);
    assert_eq!((job.start_decoded, job.end_decoded), (0, 30));
    assert_eq!(s.decoded_samples(), 30);
    assert_eq!(s.saved_sample_count(), 4);
}

#[test]
fn no_flush_without_leaving_speech() {
    let mut s: FileTranscriptionSession<i32> = FileTranscriptionSession::new();
    assert!(s.on_decoded(10, vec![1], false).is_none());
    assert!(s.on_decoded(10, vec![2], true).is_none());
    assert!(s.on_decoded(10, vec![3], true).is_none());
    let job = s.finish(None).expect("remaining speech");
    assert_eq!(job.samples, vec![1, 2, 3]);
    assert_eq!((job.start_decoded, job.end_decoded), (0, 30));
}

#[test]
fn chunk_start_is_where_the_chunk_began() {
    let mut s: FileTranscriptionSession<i32> = FileTranscriptionSession::new();
    assert!(s.on_decoded(10, vec![1], true).is_some() == false);
    assert!(s.on_decoded(10, vec![], false).is_some());
    assert!(s.on_decoded(10, vec![], true).is_none());
    assert!(s.on_decoded(10, vec![5], true).is_none());
    let job = s.on_decoded(10, vec![6], false).unwrap();
    assert_eq!(job.samples, vec![5, 6]);
    assert_eq!((job.start_decoded, job.end_decoded), (30, 50));
}

#[test]
fn finish_adds_flushed_speech() {
    let mut s: FileTranscriptionSession<i32> = FileTranscriptionSession::new();
    assert!(s.on_decoded(10, vec![], true).is_none());
    let job = s.finish(Some(vec![8, 9])).unwrap();
    assert_eq!(job.samples, vec![8, 9]);
    assert_eq!(s.saved_sample_count(), 2);
    assert!(s.finish(None).is_none());
}

#[test]
fn texts_join_into_result() {
    let mut s: FileTranscriptionSession<i32> = FileTranscriptionSession::new();
    s.on_chunk_text(" first".to_string());
    s.on_chunk_text(String::new());
    s.on_chunk_text("second ".to_string());
    assert_eq!(s.result_text(), "first\nsecond");
}

#[test]
fn progress_text_appends_partial() {
    let mut s: FileTranscriptionSession<i32> = FileTranscriptionSession::new();
    assert_eq!(s.progress_text(Some("partial")), "partial");
    assert_eq!(s.progress_text(None), "");
    s.on_chunk_text("done".to_string());
    assert_eq!(s.progress_text(Some("partial")), "done partial");
    assert_eq!(s.progress_text(Some("")), "done");
}

#[test]
fn error_messages() {
    assert_eq!(FileTranscriptionError::NotAFile.message(), "Selected path is not a file");
    assert_eq!(FileTranscriptionError::Cancelled.message(), "Cancelled");
    assert_eq!(
        FileTranscriptionError::NoSpeech.message(),
        "Selected file contains no transcribable speech"
    );
}

#[test]
fn wav_count_check() {
    assert!(check_wav_sample_count(5, 5).is_ok());
    let e = check_wav_sample_count(4, 5).unwrap_err();
    assert_eq!(e.message(), "WAV sample count mismatch: expected 5, got 4");
}

#[test]
fn empty_transcript_is_no_speech() {
    assert!(matches!(require_speech(String::new()), Err(FileTranscriptionError::NoSpeech)));
    assert_eq!(require_speech("hi".to_string()).ok(), Some("hi".to_string()));
}
