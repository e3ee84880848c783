//! Decisions taken around one engine run: which language each engine is
//! asked for, whether a whisper run translates, the decode prompt built from
//! the custom words, how whisper segments become an engine transcript, and
//! how a buffer split into speech segments is transcribed piece by piece.
use vstd::prelude::*;
use vstd::string::*;
use crate::text::{join, join_strings, lemma_join_push, push_char, str_eq, trim, trim_str};
use crate::timestamps::{EngineTranscript, TranscriptionSegment};

verus! {

/// The kind of speech engine a model runs on.
#[derive(Clone, Copy, PartialEq, Eq, Debug)]
pub enum EngineType {
    Whisper,
    Parakeet,
    Moonshine,
    MoonshineStreaming,
    SenseVoice,
    GigaAM,
    Canary,
    Cohere,
}

/// What the transcription logic reads of a model's catalogue entry.
pub struct ModelInfo {
    pub name: String,
    pub is_downloaded: bool,
    pub engine_type: EngineType,
    pub supported_languages: Vec<String>,
}

/// Whether a whisper run transcribes or translates.
#[derive(Clone, Copy, PartialEq, Eq, Debug)]
pub enum WhisperTask {
    Transcribe,
    Translate,
}

/// Whether `lang` is one of `langs`.
pub open spec fn contains_language(langs: Seq<String>, lang: Seq<char>) -> bool {
    exists|j: int| 0 <= j < langs.len() && (#[trigger] langs[j])@ == lang
}

/// The selected language if the model supports it (a model that lists no
/// languages, or that is not in the catalogue, supports all), else `auto`.
pub open spec fn validated_language(selected: Seq<char>, info: Option<ModelInfo>) -> Seq<char> {
    if selected == "auto"@ {
        "auto"@
    } else {
        let supported = match info {
            None => true,
            Some(i) => i.supported_languages@.len() == 0 || contains_language(
                i.supported_languages@,
                selected,
            ),
        };
        if supported {
            selected
        } else {
            "auto"@
        }
    }
}

/// The language an engine is asked for, given the validated language.
pub open spec fn engine_language(engine: EngineType, lang: Seq<char>) -> Option<Seq<char>> {
    match engine {
        EngineType::Whisper | EngineType::Cohere => if lang == "auto"@ {
            None
        } else if lang == "zh-Hans"@ || lang == "zh-Hant"@ {
            Some("zh"@)
        } else {
            Some(lang)
        },
        EngineType::SenseVoice => if lang == "zh"@ || lang == "zh-Hans"@ || lang == "zh-Hant"@ {
            Some("zh"@)
        } else if lang == "en"@ || lang == "ja"@ || lang == "ko"@ || lang == "yue"@ {
            Some(lang)
        } else {
            None
        },
        EngineType::Canary => if lang == "auto"@ {
            None
        } else {
            Some(lang)
        },
        _ => None,
    }
}

/// A whisper run translates to English when translation is asked for and
/// the source is not already English.
pub open spec fn whisper_task(translate: bool, language: Option<Seq<char>>) -> (
    WhisperTask,
    Option<Seq<char>>,
) {
    if translate && language != Some("en"@) {
        (WhisperTask::Translate, Some("en"@))
    } else {
        (WhisperTask::Transcribe, None)
    }
}

/// The decode prompt: the custom words joined by `, `, if there are any.
pub open spec fn initial_prompt(words: Seq<String>) -> Option<Seq<char>> {
    if words.len() == 0 {
        None
    } else {
        Some(join(words.map_values(|w: String| w@), ", "@))
    }
}

/// Validates the selected language against the model's supported languages,
/// falling back to `auto`.
pub fn validate_language(selected: &str, info: Option<&ModelInfo>) -> (r: String)
    ensures
        r@ == validated_language(
            selected@,
            match info {
                Some(i) => Some(*i),
                None => None,
            },
        ),
{
    if str_eq(selected, "auto") {
        return String::from_str("auto");
    }
    let supported = match info {
        None => true,
        Some(i) => {
            if i.supported_languages.len() == 0 {
                true
            } else {
                let mut found = false;
                let mut j: usize = 0;
                while j < i.supported_languages.len()
                    invariant
                        j <= i.supported_languages@.len(),
                        found == exists|k: int|
                            0 <= k < j && (#[trigger] i.supported_languages@[k])@ == selected@,
                    decreases i.supported_languages@.len() - j,
                {
                    if str_eq(i.supported_languages[j].as_str(), selected) {
                        found = true;
                    }
                    j = j + 1;
                }
                found
            }
        },
    };
    if supported {
        String::from_str(selected)
    } else {
        String::from_str("auto")
    }
}

/// The language passed to the given engine for a validated language.
pub fn language_for_engine(engine: EngineType, lang: &str) -> (r: Option<String>)
    ensures
        match r {
            Some(s) => engine_language(engine, lang@) == Some(s@),
            None => engine_language(engine, lang@) is None,
        },
{
    match engine {
        EngineType::Whisper | EngineType::Cohere => {
            if str_eq(lang, "auto") {
                None
            } else if str_eq(lang, "zh-Hans") || str_eq(lang, "zh-Hant") {
                Some(String::from_str("zh"))
            } else {
                Some(String::from_str(lang))
            }
        },
        EngineType::SenseVoice => {
            if str_eq(lang, "zh") || str_eq(lang, "zh-Hans") || str_eq(lang, "zh-Hant") {
                Some(String::from_str("zh"))
            } else if str_eq(lang, "en") || str_eq(lang, "ja") || str_eq(lang, "ko") || str_eq(
                lang,
                "yue",
            ) {
                Some(String::from_str(lang))
            } else {
                None
            }
        },
        EngineType::Canary => {
            if str_eq(lang, "auto") {
                None
            } else {
                Some(String::from_str(lang))
            }
        },
        _ => None,
    }
}

/// The task and target language of a whisper run.
pub fn choose_whisper_task(translate: bool, language: Option<&str>) -> (r: (
    WhisperTask,
    Option<String>,
))
    ensures
        r.0 == whisper_task(
            translate,
            match language {
                Some(l) => Some(l@),
                None => None,
            },
        ).0,
        match r.1 {
            Some(s) => whisper_task(
                translate,
                match language {
                    Some(l) => Some(l@),
                    None => None,
                },
            ).1 == Some(s@),
            None => whisper_task(
                translate,
                match language {
                    Some(l) => Some(l@),
                    None => None,
                },
            ).1 is None,
        },
{
    let is_english = match language {
        Some(l) => str_eq(l, "en"),
        None => false,
    };
    if translate && !is_english {
        (WhisperTask::Translate, Some(String::from_str("en")))
    } else {
        (WhisperTask::Transcribe, None)
    }
}

/// The whisper decode prompt for the custom words.
pub fn build_initial_prompt(custom_words: &Vec<String>) -> (r: Option<String>)
    ensures
        match r {
            Some(s) => initial_prompt(custom_words@) == Some(s@),
            None => initial_prompt(custom_words@) is None,
        },
{
    if custom_words.len() == 0 {
        None
    } else {
        Some(join_strings(custom_words, ", "))
    }
}

/// Whether a model of this architecture takes the whisper run extension
/// (decode prompt and context options): the whisper family, which also
/// covers an empty architecture name.
pub fn takes_initial_prompt(arch: &str) -> (r: bool)
    ensures
        r == (arch@ == "whisper"@ || arch@.len() == 0),
{
    str_eq(arch, "whisper") || arch.is_empty()
}

/// The options of the whisper run extension.
pub struct WhisperRunExtension {
    pub initial_prompt: Option<String>,
    pub condition_on_prev_tokens: bool,
    pub max_prev_context_tokens: u32,
}

/// The run extension of a whisper run: present only for architectures that
/// take it; it never conditions on previous tokens when `no_context` is set
/// and caps the rolling context at 64 tokens.
pub fn whisper_run_extension(arch: &str, initial_prompt: Option<String>, no_context: bool) -> (r:
    Option<WhisperRunExtension>)
    ensures
        (r is Some) == (arch@ == "whisper"@ || arch@.len() == 0),
        r matches Some(x) ==> x.initial_prompt == initial_prompt && x.condition_on_prev_tokens
            == !no_context && x.max_prev_context_tokens == 64,
{
    if takes_initial_prompt(arch) {
        Some(
            WhisperRunExtension {
                initial_prompt,
                condition_on_prev_tokens: !no_context,
                max_prev_context_tokens: 64,
            },
        )
    } else {
        None
    }
}

/// The fuzzy custom-word correction runs when there are custom words and
/// they did not already go to the engine as a decode prompt, which happens
/// only when the selected model is a whisper model and the loaded whisper
/// engine takes the prompt.
pub fn needs_custom_word_correction(
    has_custom_words: bool,
    selected_model_is_whisper: bool,
    loaded_engine_takes_prompt: bool,
) -> (r: bool)
    ensures
        r == (has_custom_words && !(selected_model_is_whisper && loaded_engine_takes_prompt)),
{
    has_custom_words && !(selected_model_is_whisper && loaded_engine_takes_prompt)
}

/// A segment as the whisper session reports it, times in milliseconds.
pub struct WhisperSegment {
    pub t0_ms: u64,
    pub t1_ms: u64,
    pub text: String,
}

/// Samples per millisecond of the 16 kHz timeline.
pub const SAMPLES_PER_MS: u64 = 16;

/// The whisper segments kept (trimmed text not empty), converted to the
/// 16 kHz timeline.
pub open spec fn whisper_kept(segs: Seq<WhisperSegment>) -> Seq<(nat, nat, Seq<char>)>
    decreases segs.len(),
{
    if segs.len() == 0 {
        Seq::empty()
    } else {
        let prev = whisper_kept(segs.drop_last());
        let s = segs.last();
        let t = trim(s.text@);
        if t.len() == 0 {
            prev
        } else {
            prev.push(((s.t0_ms * SAMPLES_PER_MS) as nat, (s.t1_ms * SAMPLES_PER_MS) as nat, t))
        }
    }
}

/// Each kept whisper segment comes from an input segment with non-empty
/// trimmed text, with both its start and its end converted from
/// milliseconds by the same scale (16 samples per millisecond), and with the
/// trimmed text; the kept segments are never more than the input ones.
#[verifier::rlimit(40)]
pub proof fn lemma_whisper_segments_scaled(segs: Seq<WhisperSegment>)
    ensures
        whisper_kept(segs).len() <= segs.len(),
        forall|j: int|
            #![trigger whisper_kept(segs)[j]]
            0 <= j < whisper_kept(segs).len() ==> exists|i: int|
                #![trigger segs[i]]
                0 <= i < segs.len() && trim(segs[i].text@).len() > 0 && whisper_kept(segs)[j].0
                    == segs[i].t0_ms * 16 && whisper_kept(segs)[j].1 == segs[i].t1_ms * 16
                    && whisper_kept(segs)[j].2 == trim(segs[i].text@),
    decreases segs.len(),
{
    if segs.len() > 0 {
        let p = segs.drop_last();
        lemma_whisper_segments_scaled(p);
        let kp = whisper_kept(p);
        let k = whisper_kept(segs);
        let n = segs.len() - 1;
        let last = segs[n];
        let t = trim(last.text@);
        assert forall|j: int| 0 <= j < kp.len() implies exists|i: int|
            #![trigger segs[i]]
            0 <= i < segs.len() && trim(segs[i].text@).len() > 0 && (#[trigger] kp[j]).0
                == segs[i].t0_ms * 16 && kp[j].1 == segs[i].t1_ms * 16 && kp[j].2 == trim(
                segs[i].text@,
            ) by {
            let i = choose|i: int|
                #![trigger p[i]]
                0 <= i < p.len() && trim(p[i].text@).len() > 0 && kp[j].0 == p[i].t0_ms * 16
                    && kp[j].1 == p[i].t1_ms * 16 && kp[j].2 == trim(p[i].text@);
            assert(p[i] == segs[i]);
        }
        if t.len() == 0 {
            assert(k == kp);
        } else {
            let nk = ((last.t0_ms * SAMPLES_PER_MS) as nat, (last.t1_ms * SAMPLES_PER_MS) as nat, t);
            assert(k == kp.push(nk));
            assert forall|j: int| 0 <= j < k.len() implies exists|i: int|
                #![trigger segs[i]]
                0 <= i < segs.len() && trim(segs[i].text@).len() > 0 && (#[trigger] k[j]).0
                    == segs[i].t0_ms * 16 && k[j].1 == segs[i].t1_ms * 16 && k[j].2 == trim(
                    segs[i].text@,
                ) by {
                if j < kp.len() {
                    assert(k[j] == kp[j]);
                } else {
                    assert(k[j] == nk);
                    assert(segs[n] == last);
                }
            }
        }
    }
}

/// Every input segment with non-empty trimmed text is kept, with both ends
/// converted by the same scale and with its trimmed text.
#[verifier::rlimit(40)]
pub proof fn lemma_whisper_segments_all_kept(segs: Seq<WhisperSegment>)
    ensures
        forall|i: int|
            #![trigger segs[i]]
            0 <= i < segs.len() && trim(segs[i].text@).len() > 0 ==> exists|j: int|
                #![trigger whisper_kept(segs)[j]]
                0 <= j < whisper_kept(segs).len() && whisper_kept(segs)[j].0 == segs[i].t0_ms * 16
                    && whisper_kept(segs)[j].1 == segs[i].t1_ms * 16 && whisper_kept(segs)[j].2
                    == trim(segs[i].text@),
    decreases segs.len(),
{
    if segs.len() > 0 {
        let p = segs.drop_last();
        lemma_whisper_segments_all_kept(p);
        let kp = whisper_kept(p);
        let k = whisper_kept(segs);
        let n = segs.len() - 1;
        let last = segs[n];
        let t = trim(last.text@);
        if t.len() == 0 {
            assert(k == kp);
        } else {
            let nk = ((last.t0_ms * SAMPLES_PER_MS) as nat, (last.t1_ms * SAMPLES_PER_MS) as nat, t);
            assert(k == kp.push(nk));
        }
        assert forall|i: int| 0 <= i < segs.len() && trim(segs[i].text@).len() > 0 implies exists|
            j: int,
        |
            #![trigger k[j]]
            0 <= j < k.len() && k[j].0 == segs[i].t0_ms * 16 && k[j].1 == segs[i].t1_ms * 16
                && k[j].2 == trim(segs[i].text@) by {
            if i < n {
                assert(p[i] == segs[i]);
                let j = choose|j: int|
                    #![trigger kp[j]]
                    0 <= j < kp.len() && kp[j].0 == p[i].t0_ms * 16 && kp[j].1 == p[i].t1_ms * 16
                        && kp[j].2 == trim(p[i].text@);
                assert(k[j] == kp[j]);
            } else {
                assert(k[kp.len() as int] == k.last());
            }
        }
    }
}

/// A selected language that the model lists is kept; the result is always
/// the selected language or `auto`; and it falls back to `auto` only when
/// the model lists languages and the selected one is not among them.
pub proof fn lemma_listed_language_kept(selected: Seq<char>, info: Option<ModelInfo>)
    ensures
        validated_language(selected, info) == selected || validated_language(selected, info)
            == "auto"@,
        info is None ==> validated_language(selected, info) == selected,
        info matches Some(i) ==> forall|j: int|
            0 <= j < i.supported_languages@.len() && (#[trigger] i.supported_languages@[j])@
                == selected ==> validated_language(selected, info) == selected,
        info matches Some(i) ==> (i.supported_languages@.len() == 0 ==> validated_language(
            selected,
            info,
        ) == selected),
        validated_language(selected, info) != selected ==> (info matches Some(i)
            && i.supported_languages@.len() > 0 && forall|j: int|
            0 <= j < i.supported_languages@.len() ==> (#[trigger] i.supported_languages@[j])@
                != selected),
{
}

/// The view of an engine segment as (start, end, text).
pub open spec fn segment_view(s: TranscriptionSegment) -> (nat, nat, Seq<char>) {
    (s.start as nat, s.end as nat, s.text@)
}

/// Turns a whisper run into an engine transcript: the segments whose
/// trimmed text is not empty, with trimmed text and times on the 16 kHz
/// timeline; the text is those texts one per line, or the run's whole text
/// trimmed when no segment is kept.
pub fn whisper_transcript(segments: &Vec<WhisperSegment>, text: &str) -> (r: EngineTranscript)
    requires
        forall|i: int|
            #![trigger segments@[i]]
            0 <= i < segments@.len() ==> segments@[i].t0_ms * SAMPLES_PER_MS <= u64::MAX
                && segments@[i].t1_ms * SAMPLES_PER_MS <= u64::MAX,
    ensures
        r.segments matches Some(v) && v@.map_values(|s: TranscriptionSegment| segment_view(s))
            == whisper_kept(segments@),
        r.text@ == if whisper_kept(segments@).len() == 0 {
            trim(text@)
        } else {
            join(whisper_kept(segments@).map_values(|k: (nat, nat, Seq<char>)| k.2), seq!['\n'])
        },
{
    let mut kept: Vec<TranscriptionSegment> = Vec::new();
    let mut full_text = String::new();
    let mut i: usize = 0;
    while i < segments.len()
        invariant
            i <= segments@.len(),
            forall|k: int|
                #![trigger segments@[k]]
                0 <= k < segments@.len() ==> segments@[k].t0_ms * SAMPLES_PER_MS <= u64::MAX
                    && segments@[k].t1_ms * SAMPLES_PER_MS <= u64::MAX,
            kept@.map_values(|s: TranscriptionSegment| segment_view(s)) == whisper_kept(
                segments@.take(i as int),
            ),
            full_text@ == join(
                whisper_kept(segments@.take(i as int)).map_values(
                    |k: (nat, nat, Seq<char>)| k.2,
                ),
                seq!['\n'],
            ),
        decreases segments@.len() - i,
    {
        let ghost prev = whisper_kept(segments@.take(i as int));
        assert(segments@.take(i + 1).drop_last() =~= segments@.take(i as int));
        assert(segments@.take(i + 1).last() == segments@[i as int]);
        let s = &segments[i];
        let t = trim_str(s.text.as_str());
        if !t.as_str().is_empty() {
            proof {
                let texts = prev.map_values(|k: (nat, nat, Seq<char>)| k.2);
                lemma_join_push(texts, t@, seq!['\n']);
                let nk = ((s.t0_ms * SAMPLES_PER_MS) as nat, (s.t1_ms * SAMPLES_PER_MS) as nat, t@);
                assert(prev.push(nk).map_values(|k: (nat, nat, Seq<char>)| k.2) =~= texts.push(
                    t@,
                ));
            }
            if kept.len() > 0 {
                push_char(&mut full_text, '\n');
            }
            full_text.append(t.as_str());
            let ghost old_kept = kept@;
            kept.push(
                TranscriptionSegment {
                    start: s.t0_ms * SAMPLES_PER_MS,
                    end: s.t1_ms * SAMPLES_PER_MS,
                    text: t,
                },
            );
            assert(kept@.map_values(|x: TranscriptionSegment| segment_view(x)) =~= old_kept.map_values(
                |x: TranscriptionSegment| segment_view(x),
            ).push(segment_view(kept@.last())));
        }
        i = i + 1;
    }
    assert(segments@.take(segments@.len() as int) =~= segments@);
    let final_text = if kept.len() == 0 {
        trim_str(text)
    } else {
        full_text
    };
    EngineTranscript { text: final_text, segments: Some(kept) }
}


/// One speech segment to transcribe on its own: the samples `start..end` of
/// the buffer, and whether the immediate unload is skipped after it (it is
/// for every segment but the last of the list).
#[derive(Clone, Copy, PartialEq, Eq, Debug)]
pub struct SegmentJob {
    pub start: usize,
    pub end: usize,
    pub skip_unload: bool,
}

/// How a buffer with detected speech segments is transcribed.
pub enum SegmentPlan {
    /// Nothing to transcribe: the text is empty.
    Nothing,
    /// One run over the whole buffer.
    Whole,
    /// One run per segment; the texts are joined afterwards.
    Pieces(Vec<SegmentJob>),
}

/// The jobs for the first `k` segments: each end is clamped to the buffer,
/// and a segment left empty by that is dropped.
pub open spec fn segment_jobs(segs: Seq<(usize, usize)>, k: nat, audio_len: nat) -> Seq<SegmentJob>
    decreases k,
{
    if k == 0 || k > segs.len() {
        Seq::empty()
    } else {
        let prev = segment_jobs(segs, (k - 1) as nat, audio_len);
        let (start, end) = segs[k - 1];
        let end2 = if end < audio_len { end as nat } else { audio_len };
        if start >= end2 {
            prev
        } else {
            prev.push(
                SegmentJob { start, end: end2 as usize, skip_unload: k - 1 != segs.len() - 1 },
            )
        }
    }
}

/// Whether a single segment covers essentially the whole buffer.
pub open spec fn covers_whole(segs: Seq<(usize, usize)>, audio_len: nat) -> bool {
    segs.len() == 1 && segs[0].0 == 0 && segs[0].1 >= (if audio_len >= 1 {
        audio_len - 1
    } else {
        0
    })
}

/// Plans the transcription of a buffer of `audio_len` samples split into
/// speech segments given as sample ranges.
pub fn plan_segments(audio_len: usize, segments: &Vec<(usize, usize)>) -> (r: SegmentPlan)
    ensures
        (r is Nothing) == (segments@.len() == 0 || audio_len == 0),
        (r is Whole) == (segments@.len() != 0 && audio_len != 0 && covers_whole(
            segments@,
            audio_len as nat,
        )),
        r matches SegmentPlan::Pieces(jobs) ==> jobs@ == segment_jobs(
            segments@,
            segments@.len(),
            audio_len as nat,
        ),
{
    if segments.len() == 0 || audio_len == 0 {
        return SegmentPlan::Nothing;
    }
    if segments.len() == 1 {
        let (start, end) = segments[0];
        if start == 0 && end >= audio_len.saturating_sub(1) {
            return SegmentPlan::Whole;
        }
    }
    let last_idx = segments.len() - 1;
    let mut jobs: Vec<SegmentJob> = Vec::new();
    let mut i: usize = 0;
    while i < segments.len()
        invariant
            i <= segments@.len(),
            last_idx == segments@.len() - 1,
            jobs@ == segment_jobs(segments@, i as nat, audio_len as nat),
        decreases segments@.len() - i,
    {
        let (start, end) = segments[i];
        let end2 = if end < audio_len {
            end
        } else {
            audio_len
        };
        if start < end2 {
            jobs.push(SegmentJob { start, end: end2, skip_unload: i != last_idx });
        }
        i = i + 1;
    }
    SegmentPlan::Pieces(jobs)
}

/// The texts of the runs that succeeded with a non-empty text, in order.
pub open spec fn successful_texts(results: Seq<Option<String>>) -> Seq<Seq<char>>
    decreases results.len(),
{
    if results.len() == 0 {
        Seq::empty()
    } else {
        let prev = successful_texts(results.drop_last());
        match results.last() {
            Some(t) => if t@.len() > 0 {
                prev.push(t@)
            } else {
                prev
            },
            None => prev,
        }
    }
}

/// Joins the texts of the per-segment runs with a blank line between them,
/// skipping failed runs (`None`) and empty texts.
pub fn join_segment_texts(results: &Vec<Option<String>>) -> (r: String)
    ensures
        r@ == join(successful_texts(results@), "\n\n"@),
{
    let ghost sep = "\n\n"@;
    let mut out = String::new();
    let mut any = false;
    let mut i: usize = 0;
    while i < results.len()
        invariant
            i <= results@.len(),
            sep == "\n\n"@,
            out@ == join(successful_texts(results@.take(i as int)), sep),
            any == (successful_texts(results@.take(i as int)).len() > 0),
        decreases results@.len() - i,
    {
        assert(results@.take(i + 1).drop_last() =~= results@.take(i as int));
        assert(results@.take(i + 1).last() == results@[i as int]);
        match &results[i] {
            Some(t) => {
                if !t.as_str().is_empty() {
                    proof {
                        lemma_join_push(successful_texts(results@.take(i as int)), t@, sep);
                    }
                    if any {
                        out.append("\n\n");
                    }
                    out.append(t.as_str());
                    any = true;
                }
            },
            None => {},
        }
        i = i + 1;
    }
    assert(results@.take(results@.len() as int) =~= results@);
    out
}

} // verus!
