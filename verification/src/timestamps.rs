//! Timestamps of transcribed text: `hh:mm:ss` ranges, the per-segment and
//! grouped timestamp layouts, and the reconstruction of a chunk's text from
//! the segments an engine returns.
//!
//! Positions are counted in samples of the 16 kHz transcription timeline, so
//! an offset that is a sample index of the audio is exact.
use vstd::prelude::*;
use vstd::string::*;
use crate::text::{decimal2, join, lemma_join_push, push_char, push_decimal2, trim, trim_str};

verus! {

/// Samples per second of the audio handed to the speech engines.
pub const SAMPLE_RATE: u64 = 16000;

/// A silence gap longer than this (1.5 s) starts a new grouped block.
pub const PARAGRAPH_GAP_SAMPLES: u64 = 24000;

/// A grouped block is not extended past this span (30 s).
pub const MAX_GROUP_SAMPLES: u64 = 480000;

/// A segment of engine output, with its span relative to the start of the
/// audio that was transcribed.
pub struct TranscriptionSegment {
    pub start: u64,
    pub end: u64,
    pub text: String,
}

/// What an engine returns for one run: the full text and, where the engine
/// reports them, its segments.
pub struct EngineTranscript {
    pub text: String,
    pub segments: Option<Vec<TranscriptionSegment>>,
}

/// How the text of a transcription is laid out.
#[derive(Clone, Copy, PartialEq, Eq, Debug)]
pub enum TimestampMode {
    /// Segment texts, one per line.
    Plain,
    /// Every segment prefixed with its own `[hh:mm:ss - hh:mm:ss]` range.
    Timestamp,
    /// Consecutive segments merged into blocks under one continuous range.
    GroupTimestamp,
}

/// `secs` as `hh:mm:ss`, hours zero-padded to at least two digits.
pub open spec fn hhmmss(secs: nat) -> Seq<char> {
    decimal2(secs / 3600) + seq![':'] + decimal2((secs % 3600) / 60) + seq![':'] + decimal2(
        secs % 60,
    )
}

/// `[hh:mm:ss - hh:mm:ss]` for two whole-second times.
pub open spec fn timestamp_range(begin: nat, end: nat) -> Seq<char> {
    seq!['['] + hhmmss(begin) + seq![' ', '-', ' '] + hhmmss(end) + seq![']']
}

/// The range of two sample positions, each truncated to whole seconds.
pub open spec fn sample_range(begin: nat, end: nat) -> Seq<char> {
    timestamp_range(begin / (SAMPLE_RATE as nat), end / (SAMPLE_RATE as nat))
}

/// One output line: a sample range, a space, then `text`.
pub open spec fn stamped_line(begin: nat, end: nat, text: Seq<char>) -> Seq<char> {
    sample_range(begin, end) + seq![' '] + text
}

/// A group of segments: first begin, furthest end, and the trimmed texts.
pub type Group = (nat, nat, Seq<Seq<char>>);

/// Adds one segment (already shifted by the chunk offset) to the groups
/// formed so far.
pub open spec fn group_step(groups: Seq<Group>, begin: nat, end: nat, text: Seq<char>) -> Seq<
    Group,
> {
    let t = trim(text);
    if t.len() == 0 || end <= begin {
        groups
    } else if groups.len() == 0 {
        seq![(begin, end, seq![t])]
    } else {
        let g = groups.last();
        if begin > g.1 + PARAGRAPH_GAP_SAMPLES || end > g.0 + MAX_GROUP_SAMPLES {
            groups.push((begin, end, seq![t]))
        } else {
            groups.update(
                groups.len() - 1,
                (g.0, if g.1 >= end { g.1 } else { end }, g.2.push(t)),
            )
        }
    }
}

/// The groups of `segs`, each shifted by `base`, taken in order.
pub open spec fn group_segments(segs: Seq<TranscriptionSegment>, base: nat) -> Seq<Group>
    decreases segs.len(),
{
    if segs.len() == 0 {
        Seq::empty()
    } else {
        let s = segs.last();
        group_step(
            group_segments(segs.drop_last(), base),
            (s.start + base) as nat,
            (s.end + base) as nat,
            s.text@,
        )
    }
}

/// A group rendered as `[begin - end] text text ...`.
pub open spec fn render_group(g: Group) -> Seq<char> {
    stamped_line(g.0, g.1, join(g.2, seq![' ']))
}

/// The grouped layout: one rendered group per line.
pub open spec fn grouped_transcript(segs: Seq<TranscriptionSegment>, base: nat) -> Seq<char> {
    join(group_segments(segs, base).map_values(|g: Group| render_group(g)), seq!['\n'])
}

/// The lines of the per-segment layout: every segment whose trimmed text is
/// not empty, stamped with its own range.
pub open spec fn timestamp_lines(segs: Seq<TranscriptionSegment>, base: nat) -> Seq<Seq<char>>
    decreases segs.len(),
{
    if segs.len() == 0 {
        Seq::empty()
    } else {
        let prev = timestamp_lines(segs.drop_last(), base);
        let s = segs.last();
        let t = trim(s.text@);
        if t.len() == 0 {
            prev
        } else {
            prev.push(stamped_line((s.start + base) as nat, (s.end + base) as nat, t))
        }
    }
}

/// The trimmed, non-empty segment texts.
pub open spec fn plain_lines(segs: Seq<TranscriptionSegment>) -> Seq<Seq<char>>
    decreases segs.len(),
{
    if segs.len() == 0 {
        Seq::empty()
    } else {
        let prev = plain_lines(segs.drop_last());
        let t = trim(segs.last().text@);
        if t.len() == 0 {
            prev
        } else {
            prev.push(t)
        }
    }
}

/// The text rebuilt from the segments in the given layout, or `None` where
/// the segments give no text for a timestamped layout.
pub open spec fn segments_text(mode: TimestampMode, r: EngineTranscript, base: nat) -> Option<
    Seq<char>,
> {
    match r.segments {
        None => None,
        Some(segs) => match mode {
            TimestampMode::Plain => Some(join(plain_lines(segs@), seq!['\n'])),
            TimestampMode::Timestamp => {
                let t = join(timestamp_lines(segs@, base), seq!['\n']);
                if segs@.len() == 0 || t.len() == 0 {
                    None
                } else {
                    Some(t)
                }
            },
            TimestampMode::GroupTimestamp => {
                let t = grouped_transcript(segs@, base);
                if segs@.len() == 0 || t.len() == 0 {
                    None
                } else {
                    Some(t)
                }
            },
        },
    }
}

/// The text of a transcribed chunk of `audio_len` samples that starts at
/// sample `base`: the segment text where it is not empty; otherwise, in a
/// timestamped layout, the whole trimmed text under the chunk's range; and
/// otherwise the engine's text as it came.
pub open spec fn chunk_transcript(
    mode: TimestampMode,
    r: EngineTranscript,
    base: nat,
    audio_len: nat,
) -> Seq<char> {
    match segments_text(mode, r, base) {
        Some(t) if t.len() > 0 => t,
        _ => if mode != TimestampMode::Plain {
            let t = trim(r.text@);
            if t.len() == 0 {
                Seq::empty()
            } else {
                stamped_line(base, base + audio_len, t)
            }
        } else {
            r.text@
        },
    }
}

/// Whether every segment position shifted by `base` fits in a `u64`.
pub open spec fn offsets_fit(segs: Seq<TranscriptionSegment>, base: nat) -> bool {
    forall|i: int|
        #![trigger segs[i]]
        0 <= i < segs.len() ==> segs[i].start + base <= u64::MAX && segs[i].end + base <= u64::MAX
}

/// Whether a chunk of `audio_len` samples starting at `base_offset` can be
/// laid out: every segment position of the result, and the chunk's end,
/// shifted by the offset, fit the sample timeline.
pub fn segment_offsets_fit(result: &EngineTranscript, base_offset: u64, audio_len: u64) -> (r:
    bool)
    ensures
        r == ((match result.segments {
            Some(segs) => offsets_fit(segs@, base_offset as nat),
            None => true,
        }) && base_offset + audio_len <= u64::MAX),
{
    if audio_len > u64::MAX - base_offset {
        return false;
    }
    match &result.segments {
        None => true,
        Some(segs) => {
            let mut i: usize = 0;
            while i < segs.len()
                invariant
                    i <= segs@.len(),
                    result.segments == Some(*segs),
                    forall|j: int|
                        #![trigger segs@[j]]
                        0 <= j < i ==> segs@[j].start + base_offset <= u64::MAX && segs@[j].end
                            + base_offset <= u64::MAX,
                decreases segs@.len() - i,
            {
                if segs[i].start > u64::MAX - base_offset || segs[i].end > u64::MAX - base_offset {
                    assert(!(segs@[i as int].start + base_offset <= u64::MAX
                        && segs@[i as int].end + base_offset <= u64::MAX));
                    assert(!offsets_fit(segs@, base_offset as nat));
                    return false;
                }
                i = i + 1;
            }
            true
        },
    }
}

fn push_hhmmss(s: &mut String, secs: u64)
    ensures
        final(s)@ == old(s)@ + hhmmss(secs as nat),
{
    push_decimal2(s, secs / 3600);
    push_char(s, ':');
    push_decimal2(s, (secs % 3600) / 60);
    push_char(s, ':');
    push_decimal2(s, secs % 60);
    assert(final(s)@ =~= old(s)@ + hhmmss(secs as nat));
}

fn push_timestamp_range(s: &mut String, begin: u64, end: u64)
    ensures
        final(s)@ == old(s)@ + timestamp_range(begin as nat, end as nat),
{
    push_char(s, '[');
    push_hhmmss(s, begin);
    push_char(s, ' ');
    push_char(s, '-');
    push_char(s, ' ');
    push_hhmmss(s, end);
    push_char(s, ']');
    assert(final(s)@ =~= old(s)@ + timestamp_range(begin as nat, end as nat));
}

fn push_stamped_line(s: &mut String, begin: u64, end: u64, text: &str)
    ensures
        final(s)@ == old(s)@ + stamped_line(begin as nat, end as nat, text@),
{
    push_timestamp_range(s, begin / SAMPLE_RATE, end / SAMPLE_RATE);
    push_char(s, ' ');
    s.append(text);
    assert(final(s)@ =~= old(s)@ + stamped_line(begin as nat, end as nat, text@));
}

/// Formats a whole number of seconds as `hh:mm:ss`.
pub fn format_seconds_hhmmss(total_seconds: u64) -> (r: String)
    ensures
        r@ == hhmmss(total_seconds as nat),
{
    let mut s = String::new();
    push_hhmmss(&mut s, total_seconds);
    assert(s@ =~= hhmmss(total_seconds as nat));
    s
}

/// Formats a begin/end pair of whole seconds as `[hh:mm:ss - hh:mm:ss]`.
pub fn format_timestamp_range(begin_seconds: u64, end_seconds: u64) -> (r: String)
    ensures
        r@ == timestamp_range(begin_seconds as nat, end_seconds as nat),
{
    let mut s = String::new();
    push_timestamp_range(&mut s, begin_seconds, end_seconds);
    assert(s@ =~= timestamp_range(begin_seconds as nat, end_seconds as nat));
    s
}

/// Merges consecutive segments into paragraph-sized blocks, each prefixed
/// with one continuous range from its first begin to its furthest end.
///
/// A segment whose trimmed text is empty, or whose end is not after its
/// begin, is skipped. A segment joins the current block unless it starts
/// more than 1.5 s after the block's end or would stretch the block past 30 s.
pub fn group_segments_with_timestamps(segs: &[TranscriptionSegment], base_offset: u64) -> (r:
    String)
    requires
        offsets_fit(segs@, base_offset as nat),
    ensures
        r@ == grouped_transcript(segs@, base_offset as nat),
{
    let ghost base = base_offset as nat;
    let mut out = String::new();
    let mut has_done = false;
    let mut has_cur = false;
    let mut cur_begin: u64 = 0;
    let mut cur_end: u64 = 0;
    let mut cur_text = String::new();
    let ghost mut cur_texts: Seq<Seq<char>> = Seq::empty();
    let mut i: usize = 0;
    while i < segs.len()
        invariant
            i <= segs@.len(),
            offsets_fit(segs@, base),
            base == base_offset,
            ({
                let g = group_segments(segs@.take(i as int), base);
                &&& has_cur == (g.len() > 0)
                &&& has_cur ==> g.last() == (cur_begin as nat, cur_end as nat, cur_texts)
                &&& has_cur ==> cur_text@ == join(cur_texts, seq![' '])
                &&& has_cur ==> cur_texts.len() > 0
                &&& has_done == (g.len() > 1)
                &&& has_cur ==> out@ == join(
                    g.drop_last().map_values(|x: Group| render_group(x)),
                    seq!['\n'],
                )
                &&& !has_cur ==> out@.len() == 0
            }),
        decreases segs@.len() - i,
    {
        let ghost g0 = group_segments(segs@.take(i as int), base);
        assert(segs@.take(i + 1).drop_last() =~= segs@.take(i as int));
        assert(segs@.take(i + 1).last() == segs@[i as int]);
        let seg = &segs[i];
        assert(segs@[i as int] == *seg);
        assert(seg.start + base <= u64::MAX && seg.end + base <= u64::MAX);
        let begin = seg.start + base_offset;
        let end = seg.end + base_offset;
        let t = trim_str(seg.text.as_str());
        if t.as_str().is_empty() || end <= begin {
        } else if !has_cur {
            has_cur = true;
            cur_begin = begin;
            cur_end = end;
            cur_text = t;
            proof {
                cur_texts = seq![cur_text@];
                assert(join(cur_texts, seq![' ']) == cur_text@);
                let g1 = group_segments(segs@.take(i + 1), base);
                assert(g1.drop_last() =~= Seq::<Group>::empty());
                assert(g1.drop_last().map_values(|x: Group| render_group(x)) =~= Seq::<
                    Seq<char>,
                >::empty());
            }
        } else if (begin > cur_end && begin - cur_end > PARAGRAPH_GAP_SAMPLES) || (end > cur_begin
            && end - cur_begin > MAX_GROUP_SAMPLES) {
            proof {
                let rs = g0.map_values(|x: Group| render_group(x));
                assert(g0.drop_last().map_values(|x: Group| render_group(x)) =~= rs.drop_last());
                assert(rs.drop_last().push(rs.last()) =~= rs);
                lemma_join_push(rs.drop_last(), rs.last(), seq!['\n']);
            }
            if has_done {
                push_char(&mut out, '\n');
            }
            push_stamped_line(&mut out, cur_begin, cur_end, cur_text.as_str());
            has_done = true;
            cur_begin = begin;
            cur_end = end;
            cur_text = t;
            proof {
                cur_texts = seq![cur_text@];
                assert(join(cur_texts, seq![' ']) == cur_text@);
                let g1 = group_segments(segs@.take(i + 1), base);
                assert(g1.drop_last() =~= g0);
            }
        } else {
            if end > cur_end {
                cur_end = end;
            }
            proof {
                lemma_join_push(cur_texts, t@, seq![' ']);
            }
            push_char(&mut cur_text, ' ');
            cur_text.append(t.as_str());
            proof {
                assert(cur_text@ =~= join(cur_texts, seq![' ']) + seq![' '] + t@);
                cur_texts = cur_texts.push(t@);
                let g1 = group_segments(segs@.take(i + 1), base);
                assert(g1.drop_last() =~= g0.drop_last());
            }
        }
        i = i + 1;
    }
    assert(segs@.take(segs@.len() as int) =~= segs@);
    if has_cur {
        proof {
            let g = group_segments(segs@, base);
            let rs = g.map_values(|x: Group| render_group(x));
            assert(g.drop_last().map_values(|x: Group| render_group(x)) =~= rs.drop_last());
            assert(rs.drop_last().push(rs.last()) =~= rs);
            lemma_join_push(rs.drop_last(), rs.last(), seq!['\n']);
        }
        if has_done {
            push_char(&mut out, '\n');
        }
        push_stamped_line(&mut out, cur_begin, cur_end, cur_text.as_str());
    } else {
        assert(group_segments(segs@, base).map_values(|x: Group| render_group(x)) =~= Seq::<
            Seq<char>,
        >::empty());
    }
    out
}


fn timestamp_lines_text(segs: &[TranscriptionSegment], base_offset: u64) -> (r: String)
    requires
        offsets_fit(segs@, base_offset as nat),
    ensures
        r@ == join(timestamp_lines(segs@, base_offset as nat), seq!['\n']),
{
    let ghost base = base_offset as nat;
    let mut out = String::new();
    let mut any = false;
    let mut i: usize = 0;
    while i < segs.len()
        invariant
            i <= segs@.len(),
            offsets_fit(segs@, base),
            base == base_offset,
            out@ == join(timestamp_lines(segs@.take(i as int), base), seq!['\n']),
            any == (timestamp_lines(segs@.take(i as int), base).len() > 0),
        decreases segs@.len() - i,
    {
        assert(segs@.take(i + 1).drop_last() =~= segs@.take(i as int));
        assert(segs@.take(i + 1).last() == segs@[i as int]);
        let seg = &segs[i];
        assert(segs@[i as int] == *seg);
        let t = trim_str(seg.text.as_str());
        if !t.as_str().is_empty() {
            proof {
                lemma_join_push(
                    timestamp_lines(segs@.take(i as int), base),
                    stamped_line((seg.start + base) as nat, (seg.end + base) as nat, t@),
                    seq!['\n'],
                );
            }
            if any {
                push_char(&mut out, '\n');
            }
            push_stamped_line(&mut out, seg.start + base_offset, seg.end + base_offset, t.as_str());
            any = true;
        }
        i = i + 1;
    }
    assert(segs@.take(segs@.len() as int) =~= segs@);
    out
}

fn plain_lines_text(segs: &[TranscriptionSegment]) -> (r: String)
    ensures
        r@ == join(plain_lines(segs@), seq!['\n']),
{
    let mut out = String::new();
    let mut any = false;
    let mut i: usize = 0;
    while i < segs.len()
        invariant
            i <= segs@.len(),
            out@ == join(plain_lines(segs@.take(i as int)), seq!['\n']),
            any == (plain_lines(segs@.take(i as int)).len() > 0),
        decreases segs@.len() - i,
    {
        assert(segs@.take(i + 1).drop_last() =~= segs@.take(i as int));
        assert(segs@.take(i + 1).last() == segs@[i as int]);
        let t = trim_str(segs[i].text.as_str());
        if !t.as_str().is_empty() {
            proof {
                lemma_join_push(plain_lines(segs@.take(i as int)), t@, seq!['\n']);
            }
            if any {
                push_char(&mut out, '\n');
            }
            out.append(t.as_str());
            any = true;
        }
        i = i + 1;
    }
    assert(segs@.take(segs@.len() as int) =~= segs@);
    out
}

/// Rebuilds the text of a transcribed chunk from the engine's segments in
/// the given layout; `base_offset` is the sample at which the chunk starts
/// and `audio_len` its length in samples.
pub fn chunk_transcript_text(
    mode: TimestampMode,
    result: &EngineTranscript,
    base_offset: u64,
    audio_len: u64,
) -> (r: String)
    requires
        match result.segments {
            Some(segs) => offsets_fit(segs@, base_offset as nat),
            None => true,
        },
        base_offset + audio_len <= u64::MAX,
    ensures
        r@ == chunk_transcript(mode, *result, base_offset as nat, audio_len as nat),
{
    let from_segments: Option<String> = match &result.segments {
        None => None,
        Some(segs) => match mode {
            TimestampMode::Plain => Some(plain_lines_text(segs.as_slice())),
            TimestampMode::Timestamp => {
                if segs.len() == 0 {
                    None
                } else {
                    let t = timestamp_lines_text(segs.as_slice(), base_offset);
                    if t.as_str().is_empty() {
                        None
                    } else {
                        Some(t)
                    }
                }
            },
            TimestampMode::GroupTimestamp => {
                if segs.len() == 0 {
                    None
                } else {
                    let t = group_segments_with_timestamps(segs.as_slice(), base_offset);
                    if t.as_str().is_empty() {
                        None
                    } else {
                        Some(t)
                    }
                }
            },
        },
    };
    match from_segments {
        Some(t) if !t.as_str().is_empty() => t,
        _ => {
            let timestamps_enabled = match mode {
                TimestampMode::Plain => false,
                _ => true,
            };
            if timestamps_enabled {
                let t = trim_str(result.text.as_str());
                if t.as_str().is_empty() {
                    String::new()
                } else {
                    let mut line = String::new();
                    push_stamped_line(&mut line, base_offset, base_offset + audio_len, t.as_str());
                    line
                }
            } else {
                result.text.clone()
            }
        },
    }
}


/// The trimmed texts of the segments that grouping keeps (non-empty text,
/// end after begin), in order.
pub open spec fn kept_texts(segs: Seq<TranscriptionSegment>) -> Seq<Seq<char>>
    decreases segs.len(),
{
    if segs.len() == 0 {
        Seq::empty()
    } else {
        let prev = kept_texts(segs.drop_last());
        let s = segs.last();
        let t = trim(s.text@);
        if t.len() == 0 || s.end <= s.start {
            prev
        } else {
            prev.push(t)
        }
    }
}

/// The texts of all groups, group after group.
pub open spec fn flatten_texts(groups: Seq<Group>) -> Seq<Seq<char>>
    decreases groups.len(),
{
    if groups.len() == 0 {
        Seq::empty()
    } else {
        flatten_texts(groups.drop_last()) + groups.last().2
    }
}

/// Grouping loses no text and keeps its order: reading the groups' texts
/// one after another gives exactly the kept segment texts in input order.
pub proof fn lemma_grouping_keeps_all_text(segs: Seq<TranscriptionSegment>, base: nat)
    ensures
        flatten_texts(group_segments(segs, base)) == kept_texts(segs),
    decreases segs.len(),
{
    if segs.len() > 0 {
        let prev = segs.drop_last();
        lemma_grouping_keeps_all_text(prev, base);
        let g = group_segments(prev, base);
        let s = segs.last();
        let b = (s.start + base) as nat;
        let e = (s.end + base) as nat;
        let t = trim(s.text@);
        if t.len() == 0 || e <= b {
        } else if g.len() == 0 {
            let g1 = seq![(b, e, seq![t])];
            assert(g1.drop_last() =~= Seq::<Group>::empty());
            assert(flatten_texts(Seq::<Group>::empty()) == Seq::<Seq<char>>::empty());
            assert(flatten_texts(g1) =~= seq![t]);
            assert(kept_texts(segs) =~= seq![t]);
        } else {
            let last = g.last();
            if b > last.1 + PARAGRAPH_GAP_SAMPLES || e > last.0 + MAX_GROUP_SAMPLES {
                let g1 = g.push((b, e, seq![t]));
                assert(g1.drop_last() =~= g);
                assert(flatten_texts(g1) =~= flatten_texts(g).push(t));
            } else {
                let ng = (last.0, if last.1 >= e { last.1 } else { e }, last.2.push(t));
                let g1 = g.update(g.len() - 1, ng);
                assert(g1.drop_last() =~= g.drop_last());
                assert(flatten_texts(g1) =~= flatten_texts(g).push(t));
            }
        }
    }
}

/// Every group has a positive span and at least one text.
pub proof fn lemma_groups_well_formed(segs: Seq<TranscriptionSegment>, base: nat)
    ensures
        forall|i: int|
            #![trigger group_segments(segs, base)[i]]
            0 <= i < group_segments(segs, base).len() ==> group_segments(segs, base)[i].0
                < group_segments(segs, base)[i].1 && group_segments(segs, base)[i].2.len() > 0,
    decreases segs.len(),
{
    if segs.len() > 0 {
        let prev = segs.drop_last();
        lemma_groups_well_formed(prev, base);
        let g = group_segments(prev, base);
        let g1 = group_segments(segs, base);
        assert forall|i: int| 0 <= i < g1.len() implies #[trigger] g1[i].0 < g1[i].1 && g1[i].2.len()
            > 0 by {
            if i < g.len() && g1[i] != g[i] {
                assert(i == g.len() - 1);
                assert(g[i].0 < g[i].1);
            }
        }
    }
}

/// The grouped layout over its rendered lines: the text is the groups'
/// lines joined by newlines, one line per group; each line is the group's
/// range (from its first begin to its furthest end, a positive span), a
/// space, and the group's texts joined by spaces; and the texts of the
/// lines, read one after another, are exactly the kept segment texts in
/// input order, so no text is lost, repeated or reordered.
pub proof fn lemma_grouped_layout(segs: Seq<TranscriptionSegment>, base: nat)
    ensures
        ({
            let gs = group_segments(segs, base);
            let lines = gs.map_values(|g: Group| render_group(g));
            &&& grouped_transcript(segs, base) == join(lines, seq!['\n'])
            &&& lines.len() == gs.len()
            &&& forall|i: int|
                #![trigger lines[i]]
                0 <= i < lines.len() ==> lines[i] == sample_range(gs[i].0, gs[i].1) + seq![' ']
                    + join(gs[i].2, seq![' ']) && gs[i].0 < gs[i].1 && gs[i].2.len() > 0
            &&& flatten_texts(gs) == kept_texts(segs)
        }),
{
    lemma_groups_well_formed(segs, base);
    lemma_grouping_keeps_all_text(segs, base);
    let gs = group_segments(segs, base);
    let lines = gs.map_values(|g: Group| render_group(g));
    assert forall|i: int| 0 <= i < lines.len() implies #[trigger] lines[i] == sample_range(
        gs[i].0,
        gs[i].1,
    ) + seq![' '] + join(gs[i].2, seq![' ']) && gs[i].0 < gs[i].1 && gs[i].2.len() > 0 by {
        assert(gs[i].0 < gs[i].1 && gs[i].2.len() > 0);
    }
}

/// Every block spans at most 30 s when every segment does: a segment
/// joins a block only if it ends within 30 s of the block's begin, however
/// short the pause before it.
pub proof fn lemma_blocks_span_at_most_30s(segs: Seq<TranscriptionSegment>, base: nat)
    requires
        forall|i: int| 0 <= i < segs.len() ==> (#[trigger] segs[i]).end <= segs[i].start
            + MAX_GROUP_SAMPLES,
    ensures
        forall|i: int|
            #![trigger group_segments(segs, base)[i]]
            0 <= i < group_segments(segs, base).len() ==> group_segments(segs, base)[i].1
                <= group_segments(segs, base)[i].0 + MAX_GROUP_SAMPLES,
    decreases segs.len(),
{
    if segs.len() > 0 {
        let prev = segs.drop_last();
        assert forall|i: int| 0 <= i < prev.len() implies (#[trigger] prev[i]).end <= prev[i].start
            + MAX_GROUP_SAMPLES by {
            assert(prev[i] == segs[i]);
        }
        lemma_blocks_span_at_most_30s(prev, base);
        assert(segs[segs.len() - 1] == segs.last());
        let g = group_segments(prev, base);
        let g1 = group_segments(segs, base);
        assert forall|i: int| 0 <= i < g1.len() implies #[trigger] g1[i].1 <= g1[i].0
            + MAX_GROUP_SAMPLES by {
            if i < g.len() && g1[i] != g[i] {
                assert(i == g.len() - 1);
            }
        }
    }
}

/// A kept segment that ends more than 30 s after the begin of the last
/// block starts a new block of its own, whatever the pause before it.
pub proof fn lemma_long_segment_starts_new_block(
    segs: Seq<TranscriptionSegment>,
    s: TranscriptionSegment,
    base: nat,
)
    requires
        group_segments(segs, base).len() > 0,
        trim(s.text@).len() > 0,
        s.start < s.end,
        s.end + base > group_segments(segs, base).last().0 + MAX_GROUP_SAMPLES,
    ensures
        group_segments(segs.push(s), base) == group_segments(segs, base).push(
            ((s.start + base) as nat, (s.end + base) as nat, seq![trim(s.text@)]),
        ),
{
    assert(segs.push(s).drop_last() =~= segs);
}

proof fn lemma_no_text_no_lines(segs: Seq<TranscriptionSegment>, base: nat)
    requires
        forall|i: int| 0 <= i < segs.len() ==> trim((#[trigger] segs[i]).text@).len() == 0,
    ensures
        timestamp_lines(segs, base).len() == 0,
        group_segments(segs, base).len() == 0,
    decreases segs.len(),
{
    if segs.len() > 0 {
        let prev = segs.drop_last();
        assert forall|i: int| 0 <= i < prev.len() implies trim((#[trigger] prev[i]).text@).len()
            == 0 by {
            assert(prev[i] == segs[i]);
        }
        lemma_no_text_no_lines(prev, base);
        assert(segs[segs.len() - 1] == segs.last());
    }
}

/// In both timestamped layouts, a chunk whose segments give no text (the
/// engine reported none, or all are blank) is the engine's trimmed text
/// stamped with the chunk's whole range, from its begin to its begin plus
/// its length; the two layouts give the same text there.
pub proof fn lemma_timestamped_fallback_stamps_chunk(
    mode: TimestampMode,
    r: EngineTranscript,
    base: nat,
    audio_len: nat,
)
    requires
        mode != TimestampMode::Plain,
        trim(r.text@).len() > 0,
        r.segments matches Some(segs) ==> forall|i: int|
            0 <= i < segs@.len() ==> trim((#[trigger] segs@[i]).text@).len() == 0,
    ensures
        chunk_transcript(mode, r, base, audio_len) == sample_range(base, base + audio_len)
            + seq![' '] + trim(r.text@),
        chunk_transcript(TimestampMode::Timestamp, r, base, audio_len) == chunk_transcript(
            TimestampMode::GroupTimestamp,
            r,
            base,
            audio_len,
        ),
{
    match r.segments {
        Some(segs) => {
            lemma_no_text_no_lines(segs@, base);
            assert(join(timestamp_lines(segs@, base), seq!['\n']).len() == 0);
            assert(group_segments(segs@, base).map_values(|g: Group| render_group(g)).len() == 0);
            assert(grouped_transcript(segs@, base).len() == 0);
        },
        None => {},
    }
}

} // verus!
