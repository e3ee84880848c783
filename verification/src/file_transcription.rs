//! The decisions of file transcription: which speech is sent to the engine
//! and when, how the chunk texts add up to the result, the monotonic
//! progress shown while it runs, and the messages it ends with.
//!
//! The session is generic in the sample type; decoding, voice activity
//! detection, writing the history WAV and running the engine are the
//! caller's work between the calls.
use vstd::prelude::*;
use vstd::string::*;
use crate::text::{decimal, join, push_char, push_decimal, trim, trim_str};

verus! {

/// Samples decoded per step of file transcription (10 s of 16 kHz audio).
pub const DECODE_CHUNK_SIZE: usize = 160000;

/// A block of speech to transcribe, with the span of decoded samples it
/// came from (used to place the engine's progress in the whole file).
pub struct ChunkJob<T> {
    pub samples: Vec<T>,
    pub start_decoded: usize,
    pub end_decoded: usize,
}

/// Progress shown to the user, which never goes back.
pub struct MonotonicProgress {
    max: i32,
}

impl MonotonicProgress {
    /// The largest progress shown so far.
    pub closed spec fn shown(&self) -> int {
        self.max as int
    }

    /// No progress shown yet.
    pub fn new() -> (r: Self)
        ensures
            r.shown() == 0,
    {
        MonotonicProgress { max: 0 }
    }

    /// The progress to show for a proposed value: the larger of it and all
    /// earlier values.
    pub fn advance(&mut self, proposed: i32) -> (shown: i32)
        ensures
            shown == if old(self).shown() >= proposed {
                old(self).shown()
            } else {
                proposed as int
            },
            final(self).shown() == shown,
    {
        if proposed > self.max {
            self.max = proposed;
        }
        self.max
    }
}

/// Two successive values shown are in order: progress never goes back.
pub proof fn lemma_progress_never_decreases(p0: int, a: int, b: int, s1: int, s2: int)
    requires
        s1 == if p0 >= a {
            p0
        } else {
            a
        },
        s2 == if s1 >= b {
            s1
        } else {
            b
        },
    ensures
        p0 <= s1 <= s2,
        a <= s1,
        b <= s2,
{
}

/// The text shown while a chunk is transcribed: the text of the earlier
/// chunks, then the engine's partial text after a space.
pub open spec fn overall_text(previous: Seq<char>, current: Option<Seq<char>>) -> Seq<char> {
    match current {
        Some(c) if c.len() > 0 => if previous.len() == 0 {
            c
        } else {
            previous + seq![' '] + c
        },
        _ => previous,
    }
}

/// The text shown while a chunk is transcribed, given the text of the
/// earlier chunks and the engine's partial text.
pub fn overall_progress_text(previous: &str, current: Option<&str>) -> (r: String)
    ensures
        r@ == overall_text(
            previous@,
            match current {
                Some(c) => Some(c@),
                None => None,
            },
        ),
{
    match current {
        Some(c) => {
            if c.is_empty() {
                String::from_str(previous)
            } else if previous.is_empty() {
                String::from_str(c)
            } else {
                let mut out = String::from_str(previous);
                push_char(&mut out, ' ');
                out.append(c);
                out
            }
        },
        None => String::from_str(previous),
    }
}

/// The driver state of one file transcription.
pub struct FileTranscriptionSession<T> {
    decoded_samples: usize,
    saved_sample_count: usize,
    current_chunk: Vec<T>,
    current_chunk_start_decoded: usize,
    prev_in_speech: bool,
    chunk_texts: Vec<String>,
    accumulated_text: String,
    speech_in: Ghost<Seq<T>>,
    speech_sent: Ghost<Seq<T>>,
}

/// The result text: the chunk texts one per line, trimmed.
pub open spec fn session_result(texts: Seq<String>) -> Seq<char> {
    trim(join(texts.map_values(|t: String| t@), seq!['\n']))
}

impl<T: Copy> FileTranscriptionSession<T> {
    /// Samples decoded so far.
    pub closed spec fn decoded(&self) -> nat {
        self.decoded_samples as nat
    }

    /// Speech samples written to the history recording so far.
    pub closed spec fn saved(&self) -> nat {
        self.saved_sample_count as nat
    }

    /// Speech gathered since the last chunk was sent for transcription.
    pub closed spec fn current(&self) -> Seq<T> {
        self.current_chunk@
    }

    /// Decoded position at which the current chunk starts.
    pub closed spec fn chunk_start(&self) -> nat {
        self.current_chunk_start_decoded as nat
    }

    /// Whether the last decoded block ended inside speech.
    pub closed spec fn in_speech(&self) -> bool {
        self.prev_in_speech
    }

    /// The non-empty texts of the chunks transcribed so far.
    pub closed spec fn texts(&self) -> Seq<String> {
        self.chunk_texts@
    }

    /// Those texts, one per line.
    pub closed spec fn accumulated(&self) -> Seq<char> {
        self.accumulated_text@
    }

    /// All speech handed to the session so far, in order.
    pub closed spec fn speech_in(&self) -> Seq<T> {
        self.speech_in@
    }

    /// All speech sent for transcription so far, chunk after chunk.
    pub closed spec fn speech_sent(&self) -> Seq<T> {
        self.speech_sent@
    }

    /// The state's own consistency: the accumulated text is the texts
    /// joined by newlines, and no text is empty.
    pub closed spec fn wf(&self) -> bool {
        &&& self.speech_sent@ + self.current_chunk@ == self.speech_in@
        &&& self.accumulated_text@ == join(
            self.chunk_texts@.map_values(|t: String| t@),
            seq!['\n'],
        )
        &&& forall|i: int| 0 <= i < self.chunk_texts@.len() ==> #[trigger] self.chunk_texts@[i]@.len() > 0
    }

    /// A session before anything is decoded.
    pub fn new() -> (r: Self)
        ensures
            r.wf(),
            r.decoded() == 0,
            r.saved() == 0,
            r.current() == Seq::<T>::empty(),
            r.chunk_start() == 0,
            !r.in_speech(),
            r.texts() == Seq::<String>::empty(),
            r.speech_in() == Seq::<T>::empty(),
            r.speech_sent() == Seq::<T>::empty(),
    {
        let r = FileTranscriptionSession {
            decoded_samples: 0,
            saved_sample_count: 0,
            current_chunk: Vec::new(),
            current_chunk_start_decoded: 0,
            prev_in_speech: false,
            chunk_texts: Vec::new(),
            accumulated_text: String::new(),
            speech_in: Ghost(Seq::empty()),
            speech_sent: Ghost(Seq::empty()),
        };
        assert(r.speech_sent@ + r.current_chunk@ =~= r.speech_in@);
        assert(r.chunk_texts@.map_values(|t: String| t@) =~= Seq::<Seq<char>>::empty());
        r
    }

    /// Samples decoded so far.
    pub fn decoded_samples(&self) -> (r: usize)
        ensures
            r == self.decoded(),
    {
        self.decoded_samples
    }

    /// Speech samples written to the history recording so far.
    pub fn saved_sample_count(&self) -> (r: usize)
        ensures
            r == self.saved(),
    {
        self.saved_sample_count
    }

    /// Takes one decoded block of `decoded_len` samples whose speech (all of
    /// it without voice activity detection) is `speech`, `in_speech` being
    /// the detector's state after it (always true without detection).
    ///
    /// The speech joins the current chunk, which records where in the file
    /// it started. When the detector leaves speech, the chunk (if not empty)
    /// is returned for transcription and a new one begins.
    pub fn on_decoded(&mut self, decoded_len: usize, speech: Vec<T>, in_speech: bool) -> (r:
        Option<ChunkJob<T>>)
        requires
            old(self).wf(),
            old(self).decoded() + decoded_len <= usize::MAX,
            old(self).saved() + speech@.len() <= usize::MAX,
        ensures
            final(self).wf(),
            final(self).decoded() == old(self).decoded() + decoded_len,
            final(self).saved() == old(self).saved() + speech@.len(),
            final(self).chunk_start() == if old(self).current().len() == 0 {
                old(self).decoded() as nat
            } else {
                old(self).chunk_start()
            },
            final(self).in_speech() == in_speech,
            final(self).texts() == old(self).texts(),
            final(self).speech_in() == old(self).speech_in() + speech@,
            r is None ==> final(self).speech_sent() == old(self).speech_sent(),
            r matches Some(job) ==> final(self).speech_sent() == old(self).speech_sent()
                + job.samples@,
            ({
                let gathered = old(self).current() + speech@;
                let flush = old(self).in_speech() && !in_speech && gathered.len() > 0;
                &&& (r is Some) == flush
                &&& flush ==> final(self).current() == Seq::<T>::empty()
                &&& !flush ==> final(self).current() == gathered
                &&& r matches Some(job) ==> job.samples@ == gathered && job.start_decoded
                    == final(self).chunk_start() && job.end_decoded == final(self).decoded()
            }),
    {
        self.decoded_samples = self.decoded_samples + decoded_len;
        self.saved_sample_count = self.saved_sample_count + speech.len();
        if self.current_chunk.len() == 0 {
            self.current_chunk_start_decoded = self.decoded_samples - decoded_len;
        }
        let mut speech = speech;
        proof {
            self.speech_in@ = self.speech_in@ + speech@;
        }
        self.current_chunk.append(&mut speech);
        assert(self.speech_sent@ + self.current_chunk@ =~= self.speech_in@);
        let flush = self.prev_in_speech && !in_speech && self.current_chunk.len() > 0;
        self.prev_in_speech = in_speech;
        if flush {
            let mut samples = Vec::new();
            std::mem::swap(&mut samples, &mut self.current_chunk);
            proof {
                self.speech_sent@ = self.speech_sent@ + samples@;
                assert(self.speech_sent@ + self.current_chunk@ =~= self.speech_in@);
            }
            Some(
                ChunkJob {
                    samples,
                    start_decoded: self.current_chunk_start_decoded,
                    end_decoded: self.decoded_samples,
                },
            )
        } else {
            None
        }
    }

    /// Records the text of a transcribed chunk; an empty text is dropped.
    pub fn on_chunk_text(&mut self, text: String)
        requires
            old(self).wf(),
        ensures
            final(self).wf(),
            final(self).texts() == if text@.len() == 0 {
                old(self).texts()
            } else {
                old(self).texts().push(text)
            },
            final(self).decoded() == old(self).decoded(),
            final(self).saved() == old(self).saved(),
            final(self).current() == old(self).current(),
            final(self).chunk_start() == old(self).chunk_start(),
            final(self).in_speech() == old(self).in_speech(),
            final(self).speech_in() == old(self).speech_in(),
            final(self).speech_sent() == old(self).speech_sent(),
    {
        if !text.as_str().is_empty() {
            let ghost views = self.chunk_texts@.map_values(|t: String| t@);
            proof {
                assert(views.push(text@).drop_last() =~= views);
            }
            if self.chunk_texts.len() > 0 {
                push_char(&mut self.accumulated_text, '\n');
            }
            self.accumulated_text.append(text.as_str());
            proof {
                if views.len() > 0 {
                    assert(self.accumulated_text@ =~= join(views, seq!['\n']) + seq!['\n'] + text@);
                } else {
                    assert(self.accumulated_text@ =~= text@);
                }
                assert(self.accumulated_text@ == join(views.push(text@), seq!['\n']));
            }
            self.chunk_texts.push(text);
            proof {
                assert(self.chunk_texts@.map_values(|t: String| t@) =~= views.push(
                    self.chunk_texts@.last()@,
                ));
                assert forall|i: int| 0 <= i < self.chunk_texts@.len() implies #[trigger] self.chunk_texts@[i]@.len() > 0 by {
                    if i < self.chunk_texts@.len() - 1 {
                        assert(self.chunk_texts@[i] == old(self).chunk_texts@[i]);
                    }
                }
            }
        }
    }

    /// Ends the decoding: the speech still buffered in the detector (if a
    /// detector is used) joins the current chunk, and the chunk, if not
    /// empty, is returned for transcription.
    pub fn finish(&mut self, flushed: Option<Vec<T>>) -> (r: Option<ChunkJob<T>>)
        requires
            old(self).wf(),
            flushed matches Some(f) ==> old(self).saved() + f@.len() <= usize::MAX,
        ensures
            final(self).wf(),
            final(self).saved() == old(self).saved() + match flushed {
                Some(f) => f@.len(),
                None => 0,
            },
            final(self).decoded() == old(self).decoded(),
            final(self).texts() == old(self).texts(),
            final(self).current() == Seq::<T>::empty(),
            final(self).speech_in() == old(self).speech_in() + match flushed {
                Some(f) => f@,
                None => Seq::<T>::empty(),
            },
            final(self).speech_sent() == final(self).speech_in(),
            ({
                let gathered = old(self).current() + match flushed {
                    Some(f) => f@,
                    None => Seq::<T>::empty(),
                };
                &&& (r is Some) == (gathered.len() > 0)
                &&& r matches Some(job) ==> job.samples@ == gathered && job.start_decoded
                    == old(self).chunk_start() && job.end_decoded == old(self).decoded()
            }),
    {
        match flushed {
            Some(f) => {
                let mut f = f;
                self.saved_sample_count = self.saved_sample_count + f.len();
                proof {
                    self.speech_in@ = self.speech_in@ + f@;
                }
                self.current_chunk.append(&mut f);
                assert(self.speech_sent@ + self.current_chunk@ =~= self.speech_in@);
            },
            None => {
                assert(self.current_chunk@ =~= self.current_chunk@ + Seq::<T>::empty());
                assert(self.speech_in@ =~= self.speech_in@ + Seq::<T>::empty());
            },
        }
        let mut samples = Vec::new();
        std::mem::swap(&mut samples, &mut self.current_chunk);
        proof {
            self.speech_sent@ = self.speech_sent@ + samples@;
            assert(self.speech_sent@ + self.current_chunk@ =~= self.speech_in@);
        }
        if samples.len() > 0 {
            Some(
                ChunkJob {
                    samples,
                    start_decoded: self.current_chunk_start_decoded,
                    end_decoded: self.decoded_samples,
                },
            )
        } else {
            None
        }
    }

    /// The text shown while the next chunk is transcribed, given the
    /// engine's partial text.
    pub fn progress_text(&self, current: Option<&str>) -> (r: String)
        ensures
            r@ == overall_text(
                self.accumulated(),
                match current {
                    Some(c) => Some(c@),
                    None => None,
                },
            ),
    {
        overall_progress_text(self.accumulated_text.as_str(), current)
    }

    /// The transcript of the file: the chunk texts one per line, trimmed.
    pub fn result_text(&self) -> (r: String)
        requires
            self.wf(),
        ensures
            r@ == session_result(self.texts()),
    {
        trim_str(self.accumulated_text.as_str())
    }
}

/// Why a file transcription ended without a result.
pub enum FileTranscriptionError {
    /// The path does not name a file.
    NotAFile,
    /// The user cancelled.
    Cancelled,
    /// The file held no speech that gave text.
    NoSpeech,
    /// The history recording holds another number of samples than written.
    SampleCountMismatch { expected: usize, actual: usize },
    /// Transcribing a chunk failed with the engine's message.
    TranscriptionFailed(String),
}

/// The message of an error.
pub open spec fn error_message(e: FileTranscriptionError) -> Seq<char> {
    match e {
        FileTranscriptionError::NotAFile => "Selected path is not a file"@,
        FileTranscriptionError::Cancelled => "Cancelled"@,
        FileTranscriptionError::NoSpeech => "Selected file contains no transcribable speech"@,
        FileTranscriptionError::SampleCountMismatch { expected, actual } => "WAV sample count mismatch: expected "@
            + decimal(expected as nat) + ", got "@ + decimal(actual as nat),
        FileTranscriptionError::TranscriptionFailed(m) => "Transcription failed: "@ + m@,
    }
}

impl FileTranscriptionError {
    /// The message shown for the error.
    pub fn message(&self) -> (r: String)
        ensures
            r@ == error_message(*self),
    {
        match self {
            FileTranscriptionError::NotAFile => String::from_str("Selected path is not a file"),
            FileTranscriptionError::Cancelled => String::from_str("Cancelled"),
            FileTranscriptionError::NoSpeech => String::from_str(
                "Selected file contains no transcribable speech",
            ),
            FileTranscriptionError::SampleCountMismatch { expected, actual } => {
                let mut s = String::from_str("WAV sample count mismatch: expected ");
                push_decimal(&mut s, *expected as u64);
                s.append(", got ");
                push_decimal(&mut s, *actual as u64);
                s
            },
            FileTranscriptionError::TranscriptionFailed(m) => {
                let mut s = String::from_str("Transcription failed: ");
                s.append(m.as_str());
                s
            },
        }
    }
}

/// Checks the sample count read back from the history recording.
pub fn check_wav_sample_count(actual: usize, expected: usize) -> (r: Result<(), FileTranscriptionError>)
    ensures
        r is Ok <==> actual == expected,
        r matches Err(e) ==> e == (FileTranscriptionError::SampleCountMismatch { expected, actual }),
{
    if actual != expected {
        Err(FileTranscriptionError::SampleCountMismatch { expected, actual })
    } else {
        Ok(())
    }
}

/// The transcript of a file, or `NoSpeech` when it is empty.
pub fn require_speech(raw_text: String) -> (r: Result<String, FileTranscriptionError>)
    ensures
        raw_text@.len() == 0 ==> r matches Err(FileTranscriptionError::NoSpeech),
        raw_text@.len() > 0 ==> r == Ok::<String, FileTranscriptionError>(raw_text),
{
    if raw_text.as_str().is_empty() {
        Err(FileTranscriptionError::NoSpeech)
    } else {
        Ok(raw_text)
    }
}

/// The error of a chunk whose transcription failed: a run the user
/// cancelled (an aborted whisper run reports the plain `Cancelled` marker)
/// takes the cancelled path; any other failure reports the engine's message.
pub fn chunk_failure(engine_message: String, cancelled: bool) -> (r: FileTranscriptionError)
    ensures
        cancelled ==> r is Cancelled,
        !cancelled ==> r == FileTranscriptionError::TranscriptionFailed(engine_message),
{
    if cancelled {
        FileTranscriptionError::Cancelled
    } else {
        FileTranscriptionError::TranscriptionFailed(engine_message)
    }
}

} // verus!
