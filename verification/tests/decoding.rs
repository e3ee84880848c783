use hanhcute::decoding::{
    expected_resampled_len, needs_resampling, on_decode_error, on_read_error, pad_to,
    plan_resampler_blocks, DecodeBuffers, MediaDecodeFailure, DecodeStep, ErrorAction, MediaErrorKind, RESAMPLER_CHUNK_SIZE,
};

#[test]
fn resampled_length_rounds_up() {
    assert_eq!(expected_resampled_len(16384, 44100), 5945);
    assert_eq!(expected_resampled_len(441, 44100), 160);
    assert_eq!(expected_resampled_len(0, 48000), 0);
    assert_eq!(expected_resampled_len(3, 48000), 1);
}

#[test]
fn resampling_needed_only_off_rate() {
    assert!(needs_resampling(44100, 10));
    assert!(!needs_resampling(16000, 10));
    assert!(!needs_resampling(44100, 0));
}

#[test]
fn padding_appends_zeros() {
    assert_eq!(pad_to(vec![1, 2], 4, 0), vec![1, 2, 0, 0]);
    assert_eq!(pad_to(vec![1, 2, 3], 2, 0), vec![1, 2, 3]);
}

#[test]
fn read_error_reactions() {
    assert_eq!(on_read_error(MediaErrorKind::UnexpectedEof), ErrorAction::EndOfStream);
    assert_eq!(on_read_error(MediaErrorKind::ResetRequired), ErrorAction::FailResetRequired);
    assert_eq!(on_read_error(MediaErrorKind::Decode), ErrorAction::Fail);
    assert_eq!(on_read_error(MediaErrorKind::Io), ErrorAction::Fail);
}

#[test]
fn decode_error_reactions() {
    assert_eq!(on_decode_error(MediaErrorKind::Decode), ErrorAction::SkipPacket);
    assert_eq!(on_decode_error(MediaErrorKind::UnexpectedEof), ErrorAction::EndOfStream);
    assert_eq!(on_decode_error(MediaErrorKind::ResetRequired), ErrorAction::FailResetRequired);
    assert_eq!(on_decode_error(MediaErrorKind::Other), ErrorAction::Fail);
}

#[test]
fn chunks_without_resampling() {
    let mut b: DecodeBuffers<i32> = DecodeBuffers::new();
    let mut out = Vec::new();
    assert!(matches!(b.step(&mut out, 3, 0), DecodeStep::ReadPacket));
    assert!(!b.observe_rate(16000));
    b.push_mono(vec![1, 2, 3, 4, 5]);
    assert!(matches!(b.step(&mut out, 3, 0), DecodeStep::ReturnChunk));
    assert_eq!(out, vec![1, 2, 3]);
    let mut out2 = Vec::new();
    assert!(matches!(b.step(&mut out2, 3, 0), DecodeStep::ReadPacket));
    assert_eq!(out2, vec![4, 5]);
    b.mark_eof();
    assert!(matches!(b.step(&mut out2, 3, 0), DecodeStep::ReturnChunk));
    let mut out3 = Vec::new();
    assert!(matches!(b.step(&mut out3, 3, 0), DecodeStep::ReturnEnd));
}

#[test]
fn zero_sized_request_returns_empty_chunk_when_data_pending() {
    let mut b: DecodeBuffers<i32> = DecodeBuffers::new();
    b.push_mono(vec![1]);
    let mut out = Vec::new();
    assert!(matches!(b.step(&mut out, 0, 0), DecodeStep::ReturnChunk));
    assert!(out.is_empty());
}

#[test]
fn resampler_blocks_and_final_flush() {
    let mut b: DecodeBuffers<i32> = DecodeBuffers::new();
    assert!(b.observe_rate(32000));
    assert!(!b.observe_rate(8000));
    b.enable_resampling();
    b.push_mono(vec![7; RESAMPLER_CHUNK_SIZE + 10]);
    let block = b.take_full_block().unwrap();
    assert_eq!(block.len(), RESAMPLER_CHUNK_SIZE);
    assert!(b.take_full_block().is_none());
    b.push_resampled(vec![1; 8192]);
    b.mark_eof();
    let mut out = Vec::new();
    match b.step(&mut out, 10_000, 0) {
        DecodeStep::FlushResampler(last) => {
            assert_eq!(last.len(), RESAMPLER_CHUNK_SIZE);
            assert_eq!(&last[..10], &[7; 10]);
            assert!(last[10..].iter().all(|&x| x == 0));
        }
        _ => panic!("expected a flush"),
    }
    assert_eq!(out.len(), 8192);
    // A full block at 32 kHz gives 8192 samples at 16 kHz; extra output is cut.
    b.push_flushed(vec![2; 9000]);
    let mut out2 = Vec::new();
    assert!(matches!(b.step(&mut out2, 10_000, 0), DecodeStep::ReturnChunk));
    assert_eq!(out2, vec![2; 8192]);
}

#[test]
fn resampler_blocks_plan() {
    let samples = vec![3i32; RESAMPLER_CHUNK_SIZE * 2 + 441];
    let blocks = plan_resampler_blocks(&samples, 44100, 0);
    assert_eq!(blocks.len(), 3);
    assert_eq!(blocks[0].keep, None);
    assert_eq!(blocks[1].keep, None);
    assert_eq!(blocks[2].keep, Some(160));
    assert!(blocks.iter().all(|b| b.input.len() == RESAMPLER_CHUNK_SIZE));
    assert!(blocks[2].input[441..].iter().all(|&x| x == 0));
    assert!(plan_resampler_blocks::<i32>(&[], 44100, 0).is_empty());
}

#[test]
fn decode_failure_messages() {
    assert_eq!(
        MediaDecodeFailure::NoDecodableTrack(Some("bad codec".to_string())).message(),
        "No decodable audio track found: bad codec"
    );
    assert_eq!(MediaDecodeFailure::NoDecodableTrack(None).message(), "No supported audio track found");
    assert_eq!(MediaDecodeFailure::ResetRequired.message(), "Decoder reset is required but not supported");
    assert_eq!(MediaDecodeFailure::NoSamples.message(), "No audio samples found in file");
    assert_eq!(MediaDecodeFailure::UnknownSampleRate.message(), "Could not determine media sample rate");
}
