use hanhcute::timestamps::{
    chunk_transcript_text, format_seconds_hhmmss, format_timestamp_range,
    group_segments_with_timestamps, EngineTranscript, TimestampMode, TranscriptionSegment,
};

const SEC: u64 = 16000;

fn seg(start_s: f64, end_s: f64, text: &str) -> TranscriptionSegment {
    TranscriptionSegment {
        start: (start_s * SEC as f64) as u64,
        end: (end_s * SEC as f64) as u64,
        text: text.to_string(),
    }
}

#[test]
fn hhmmss_zero() {
    assert_eq!(format_seconds_hhmmss(0), "00:00:00");
}

#[test]
fn hhmmss_hour_minute_second() {
    assert_eq!(format_seconds_hhmmss(3661), "01:01:01");
}

#[test]
fn hhmmss_more_than_99_hours() {
    assert_eq!(format_seconds_hhmmss(360_000), "100:00:00");
}

#[test]
fn hhmmss_just_under_an_hour() {
    assert_eq!(format_seconds_hhmmss(3599), "00:59:59");
}

#[test]
fn range_format() {
    assert_eq!(format_timestamp_range(5, 3725), "[00:00:05 - 01:02:05]");
}

#[test]
fn grouping_merges_close_segments() {
    let segs = vec![seg(0.0, 2.0, " Hello "), seg(2.5, 4.0, "world")];
    assert_eq!(group_segments_with_timestamps(&segs, 0), "[00:00:00 - 00:00:04] Hello world");
}

#[test]
fn grouping_splits_on_long_gap() {
    let segs = vec![seg(0.0, 2.0, "one"), seg(3.6, 5.0, "two")];
    assert_eq!(
        group_segments_with_timestamps(&segs, 0),
        "[00:00:00 - 00:00:02] one\n[00:00:03 - 00:00:05] two"
    );
}

#[test]
fn grouping_gap_of_exactly_one_and_a_half_seconds_merges() {
    let segs = vec![seg(0.0, 2.0, "one"), seg(3.5, 5.0, "two")];
    assert_eq!(group_segments_with_timestamps(&segs, 0), "[00:00:00 - 00:00:05] one two");
}

#[test]
fn grouping_splits_past_thirty_seconds() {
    let segs = vec![seg(0.0, 20.0, "a"), seg(20.5, 31.0, "b")];
    assert_eq!(
        group_segments_with_timestamps(&segs, 0),
        "[00:00:00 - 00:00:20] a\n[00:00:20 - 00:00:31] b"
    );
}

#[test]
fn grouping_skips_blank_and_empty_span() {
    let segs = vec![seg(0.0, 1.0, "   "), seg(2.0, 2.0, "zero"), seg(3.0, 4.0, "kept")];
    assert_eq!(group_segments_with_timestamps(&segs, 0), "[00:00:03 - 00:00:04] kept");
}

#[test]
fn grouping_keeps_furthest_end() {
    let segs = vec![seg(0.0, 10.0, "long"), seg(1.0, 5.0, "inner")];
    assert_eq!(group_segments_with_timestamps(&segs, 0), "[00:00:00 - 00:00:10] long inner");
}

#[test]
fn grouping_applies_base_offset() {
    let segs = vec![seg(1.0, 2.0, "x")];
    assert_eq!(group_segments_with_timestamps(&segs, 60 * SEC), "[00:01:01 - 00:01:02] x");
}

#[test]
fn grouping_of_nothing_is_empty() {
    assert_eq!(group_segments_with_timestamps(&[], 0), "");
}

#[test]
fn grouping_keeps_all_text_in_order() {
    let segs = vec![
        seg(0.0, 1.0, "a"),
        seg(5.0, 6.0, "b"),
        seg(6.5, 7.0, "c"),
        seg(40.0, 41.0, "d"),
    ];
    let out = group_segments_with_timestamps(&segs, 0);
    let texts: Vec<&str> = out
        .lines()
        .flat_map(|l| l.splitn(2, "] ").nth(1).unwrap().split(' '))
        .collect();
    assert_eq!(texts, vec!["a", "b", "c", "d"]);
}

fn transcript(text: &str, segments: Option<Vec<TranscriptionSegment>>) -> EngineTranscript {
    EngineTranscript { text: text.to_string(), segments }
}

#[test]
fn chunk_plain_joins_trimmed_segments() {
    let r = transcript("ignored", Some(vec![seg(0.0, 1.0, " a "), seg(1.0, 2.0, " "), seg(2.0, 3.0, "b")]));
    assert_eq!(chunk_transcript_text(TimestampMode::Plain, &r, 0, 48000), "a\nb");
}

#[test]
fn chunk_plain_without_segments_keeps_raw_text() {
    let r = transcript("  raw text ", None);
    assert_eq!(chunk_transcript_text(TimestampMode::Plain, &r, 0, 48000), "  raw text ");
}

#[test]
fn chunk_plain_with_blank_segments_falls_back_to_raw_text() {
    let r = transcript(" raw ", Some(vec![seg(0.0, 1.0, "  ")]));
    assert_eq!(chunk_transcript_text(TimestampMode::Plain, &r, 0, 48000), " raw ");
}

#[test]
fn chunk_timestamp_stamps_each_segment() {
    let r = transcript("x", Some(vec![seg(0.0, 1.5, "a"), seg(61.0, 62.0, "b")]));
    assert_eq!(
        chunk_transcript_text(TimestampMode::Timestamp, &r, 10 * SEC, 0),
        "[00:00:10 - 00:00:11] a\n[00:01:11 - 00:01:12] b"
    );
}

#[test]
fn chunk_timestamp_without_segments_stamps_whole_chunk() {
    let r = transcript(" hello ", None);
    assert_eq!(
        chunk_transcript_text(TimestampMode::Timestamp, &r, 5 * SEC, 10 * SEC),
        "[00:00:05 - 00:00:15] hello"
    );
}

#[test]
fn chunk_group_without_any_text_is_empty() {
    let r = transcript("   ", Some(vec![]));
    assert_eq!(chunk_transcript_text(TimestampMode::GroupTimestamp, &r, 0, 16000), "");
}

#[test]
fn chunk_group_uses_grouping() {
    let r = transcript("x", Some(vec![seg(0.0, 1.0, "a"), seg(1.2, 2.0, "b")]));
    assert_eq!(
        chunk_transcript_text(TimestampMode::GroupTimestamp, &r, 0, 32000),
        "[00:00:00 - 00:00:02] a b"
    );
}
