//! The buffering of the incremental media decoder: decoded mono samples are
//! queued, cut into fixed-size resampler input blocks when the source rate is
//! not 16 kHz, and handed out in chunks of at most a requested size.
//!
//! The buffers are generic in the sample type; reading packets, decoding,
//! downmixing and resampling are the caller's work between the steps.
use vstd::prelude::*;
use vstd::string::*;

verus! {

/// Sample rate of the audio the transcription engines take.
pub const TRANSCRIPTION_SAMPLE_RATE: usize = 16000;

/// Number of input samples the resampler takes per call.
pub const RESAMPLER_CHUNK_SIZE: usize = 16384;

/// Samples in one minute of 16 kHz mono audio: the default chunk size of
/// streaming file transcription.
pub const FILE_TRANSCRIPTION_CHUNK_SAMPLES: usize = 960000;

/// The number of output samples that `input_len` samples at
/// `source_rate` give at 16 kHz, rounded up.
pub open spec fn resampled_len(input_len: nat, source_rate: nat) -> nat
    recommends
        source_rate > 0,
{
    let scaled: nat = input_len * (TRANSCRIPTION_SAMPLE_RATE as nat);
    if scaled % source_rate == 0 {
        scaled / source_rate
    } else {
        scaled / source_rate + 1
    }
}

/// The number of samples kept of the resampler's output for a block that
/// held `input_len` real (not padding) samples.
pub fn expected_resampled_len(input_len: usize, source_rate: usize) -> (r: usize)
    requires
        source_rate > 0,
        input_len * TRANSCRIPTION_SAMPLE_RATE <= usize::MAX,
    ensures
        r == resampled_len(input_len as nat, source_rate as nat),
{
    let scaled = input_len * TRANSCRIPTION_SAMPLE_RATE;
    if scaled % source_rate == 0 {
        scaled / source_rate
    } else {
        scaled / source_rate + 1
    }
}

/// Whether decoded audio at `source_rate` must be resampled: it must unless
/// it is already at 16 kHz or there is nothing to resample.
pub fn needs_resampling(source_rate: usize, sample_count: usize) -> (r: bool)
    ensures
        r == (source_rate != TRANSCRIPTION_SAMPLE_RATE && sample_count != 0),
{
    source_rate != TRANSCRIPTION_SAMPLE_RATE && sample_count != 0
}

/// `s` followed by copies of `zero` up to length `len` (or `s` itself when
/// it is not shorter).
pub open spec fn padded<T>(s: Seq<T>, len: nat, zero: T) -> Seq<T> {
    if s.len() >= len {
        s
    } else {
        s + Seq::new((len - s.len()) as nat, |_i: int| zero)
    }
}

/// `chunk` padded with `zero` up to `len` samples.
pub fn pad_to<T: Copy>(chunk: Vec<T>, len: usize, zero: T) -> (r: Vec<T>)
    ensures
        r@ == padded(chunk@, len as nat, zero),
{
    let mut v = chunk;
    let ghost orig = v@;
    while v.len() < len
        invariant
            orig.len() <= v@.len(),
            v@.len() <= len || v@ == orig,
            v@ == orig + Seq::new((v@.len() - orig.len()) as nat, |_i: int| zero),
        decreases len - v@.len(),
    {
        v.push(zero);
        assert(v@ =~= orig + Seq::new((v@.len() - orig.len()) as nat, |_i: int| zero));
    }
    assert(v@ =~= padded(orig, len as nat, zero));
    v
}

/// Number of blocks of `size` that `len` samples make (the last may be
/// partial).
pub open spec fn block_count(len: nat, size: nat) -> nat
    recommends
        size > 0,
{
    if len % size == 0 {
        len / size
    } else {
        len / size + 1
    }
}

/// The end of the `k`-th block of `size` in a sequence of `len` samples.
pub open spec fn block_end(len: nat, k: int, size: nat) -> int {
    if (k + 1) * size <= len {
        (k + 1) * size
    } else {
        len as int
    }
}

/// The `k`-th block of `size` samples of `s`, padded with `zero` when it is
/// the partial last one.
pub open spec fn block_at<T>(s: Seq<T>, k: int, size: nat, zero: T) -> Seq<T> {
    padded(s.subrange(k * size, block_end(s.len(), k, size)), size, zero)
}

pub(crate) fn copy_range<T: Copy>(s: &[T], start: usize, end: usize) -> (r: Vec<T>)
    requires
        start <= end <= s@.len(),
    ensures
        r@ == s@.subrange(start as int, end as int),
{
    let mut v: Vec<T> = Vec::new();
    let mut j = start;
    while j < end
        invariant
            start <= j <= end <= s@.len(),
            v@ == s@.subrange(start as int, j as int),
        decreases end - j,
    {
        v.push(s[j]);
        assert(v@ =~= s@.subrange(start as int, j + 1));
        j = j + 1;
    }
    v
}

/// Splits `samples` into blocks of `size`, padding the last with `zero`;
/// also gives how many real samples each block holds.
pub fn split_padded<T: Copy>(samples: &[T], size: usize, zero: T) -> (r: Vec<(Vec<T>, usize)>)
    requires
        size > 0,
    ensures
        r@.len() == block_count(samples@.len(), size as nat),
        forall|k: int|
            #![trigger r@[k]]
            0 <= k < r@.len() ==> r@[k].0@ == block_at(samples@, k, size as nat, zero)
                && r@[k].0@.len() == size && r@[k].1 == block_end(samples@.len(), k, size as nat)
                - k * size,
{
    let n = samples.len();
    let count = if n % size == 0 {
        n / size
    } else {
        assert(n / size < n) by (nonlinear_arith)
            requires
                size > 0,
                n % size != 0,
        ;
        n / size + 1
    };
    let mut blocks: Vec<(Vec<T>, usize)> = Vec::new();
    let mut k: usize = 0;
    while k < count
        invariant
            size > 0,
            n == samples@.len(),
            count == block_count(n as nat, size as nat),
            k <= count,
            blocks@.len() == k,
            forall|j: int|
                #![trigger blocks@[j]]
                0 <= j < blocks@.len() ==> blocks@[j].0@ == block_at(samples@, j, size as nat, zero)
                    && blocks@[j].0@.len() == size && blocks@[j].1 == block_end(
                    n as nat,
                    j,
                    size as nat,
                ) - j * size,
        decreases count - k,
    {
        assert(k * size < n) by (nonlinear_arith)
            requires
                k < count,
                size > 0,
                n % size == 0 ==> count == n / size,
                n % size != 0 ==> count == n / size + 1,
        ;
        let start = k * size;
        let end = if n - start >= size {
            start + size
        } else {
            n
        };
        assert((k + 1) * size == start + size) by (nonlinear_arith)
            requires
                start == k * size,
        ;
        let chunk = copy_range(samples, start, end);
        let block = pad_to(chunk, size, zero);
        assert(block@ == block_at(samples@, k as int, size as nat, zero));
        blocks.push((block, end - start));
        k = k + 1;
    }
    blocks
}

/// One block for the resampler, and how many samples of its output to keep
/// (`None`: all of it).
pub struct ResampleBlock<T> {
    pub input: Vec<T>,
    pub keep: Option<usize>,
}

/// Cuts decoded mono samples at `source_rate` into resampler blocks: full
/// blocks keep all their output; the last partial block is padded with
/// `zero` and keeps what its real samples give at 16 kHz.
pub fn plan_resampler_blocks<T: Copy>(samples: &[T], source_rate: usize, zero: T) -> (r: Vec<
    ResampleBlock<T>,
>)
    requires
        source_rate > 0,
    ensures
        r@.len() == block_count(samples@.len(), RESAMPLER_CHUNK_SIZE as nat),
        forall|k: int|
            #![trigger r@[k]]
            0 <= k < r@.len() ==> r@[k].input@ == block_at(
                samples@,
                k,
                RESAMPLER_CHUNK_SIZE as nat,
                zero,
            ) && r@[k].keep == if block_end(samples@.len(), k, RESAMPLER_CHUNK_SIZE as nat) - k
                * RESAMPLER_CHUNK_SIZE == RESAMPLER_CHUNK_SIZE {
                None
            } else {
                Some(
                    resampled_len(
                        (block_end(samples@.len(), k, RESAMPLER_CHUNK_SIZE as nat) - k
                            * RESAMPLER_CHUNK_SIZE) as nat,
                        source_rate as nat,
                    ) as usize,
                )
            },
{
    let blocks = split_padded(samples, RESAMPLER_CHUNK_SIZE, zero);
    let mut out: Vec<ResampleBlock<T>> = Vec::new();
    let mut blocks = blocks;
    let ghost all = blocks@;
    let mut rev: Vec<ResampleBlock<T>> = Vec::new();
    while blocks.len() > 0
        invariant
            source_rate > 0,
            blocks@ == all.take(blocks@.len() as int),
            blocks@.len() <= all.len(),
            all.len() == block_count(samples@.len(), RESAMPLER_CHUNK_SIZE as nat),
            forall|k: int|
                #![trigger all[k]]
                0 <= k < all.len() ==> all[k].0@ == block_at(
                    samples@,
                    k,
                    RESAMPLER_CHUNK_SIZE as nat,
                    zero,
                ) && all[k].0@.len() == RESAMPLER_CHUNK_SIZE && all[k].1 == block_end(
                    samples@.len(),
                    k,
                    RESAMPLER_CHUNK_SIZE as nat,
                ) - k * RESAMPLER_CHUNK_SIZE,
            rev@.len() == all.len() - blocks@.len(),
            forall|j: int|
                #![trigger rev@[j]]
                0 <= j < rev@.len() ==> ({
                    let k = all.len() - 1 - j;
                    &&& rev@[j].input@ == all[k].0@
                    &&& rev@[j].keep == if all[k].1 == RESAMPLER_CHUNK_SIZE {
                        None
                    } else {
                        Some(resampled_len(all[k].1 as nat, source_rate as nat) as usize)
                    }
                }),
        decreases blocks@.len(),
    {
        let ghost k = blocks@.len() - 1;
        let (input, real_len) = blocks.pop().unwrap();
        assert(all[k] == (input, real_len));
        assert(real_len <= RESAMPLER_CHUNK_SIZE) by {
            assert(block_end(samples@.len(), k, RESAMPLER_CHUNK_SIZE as nat) <= (k + 1)
                * RESAMPLER_CHUNK_SIZE);
        }
        let keep = if real_len == RESAMPLER_CHUNK_SIZE {
            None
        } else {
            Some(expected_resampled_len(real_len, source_rate))
        };
        rev.push(ResampleBlock { input, keep });
        assert(blocks@ =~= all.take(blocks@.len() as int));
    }
    while rev.len() > 0
        invariant
            source_rate > 0,
            rev@.len() + out@.len() == all.len(),
            all.len() == block_count(samples@.len(), RESAMPLER_CHUNK_SIZE as nat),
            forall|k: int|
                #![trigger all[k]]
                0 <= k < all.len() ==> all[k].0@ == block_at(
                    samples@,
                    k,
                    RESAMPLER_CHUNK_SIZE as nat,
                    zero,
                ) && all[k].1 == block_end(samples@.len(), k, RESAMPLER_CHUNK_SIZE as nat) - k
                    * RESAMPLER_CHUNK_SIZE,
            forall|j: int|
                #![trigger rev@[j]]
                0 <= j < rev@.len() ==> ({
                    let k = all.len() - 1 - j;
                    &&& rev@[j].input@ == all[k].0@
                    &&& rev@[j].keep == if all[k].1 == RESAMPLER_CHUNK_SIZE {
                        None
                    } else {
                        Some(resampled_len(all[k].1 as nat, source_rate as nat) as usize)
                    }
                }),
            forall|k: int|
                #![trigger out@[k]]
                0 <= k < out@.len() ==> {
                    &&& out@[k].input@ == all[k].0@
                    &&& out@[k].keep == if all[k].1 == RESAMPLER_CHUNK_SIZE {
                        None
                    } else {
                        Some(resampled_len(all[k].1 as nat, source_rate as nat) as usize)
                    }
                },
        decreases rev@.len(),
    {
        let ghost j = rev@.len() - 1;
        let b = rev.pop().unwrap();
        assert(all.len() - 1 - j == out@.len());
        out.push(b);
    }
    out
}

/// The first `n` elements of `v` (or all of them when `v` is shorter).
fn prefix_of<T>(v: Vec<T>, n: usize) -> (r: Vec<T>)
    ensures
        r@ == if n < v@.len() {
            v@.take(n as int)
        } else {
            v@
        },
{
    let mut v = v;
    v.truncate(n);
    v
}

/// What a media read or decode error is.
#[derive(Clone, Copy, PartialEq, Eq, Debug)]
pub enum MediaErrorKind {
    /// An I/O error of kind `UnexpectedEof`: the stream has ended.
    UnexpectedEof,
    /// Any other I/O error.
    Io,
    /// The decoder asks to be reset.
    ResetRequired,
    /// The packet could not be decoded.
    Decode,
    /// Any other error.
    Other,
}

/// What the decoding loop does after an error.
#[derive(Clone, Copy, PartialEq, Eq, Debug)]
pub enum ErrorAction {
    /// The stream has ended.
    EndOfStream,
    /// Skip this packet and go on.
    SkipPacket,
    /// Stop with the error.
    Fail,
    /// Stop: a decoder reset is required but not supported.
    FailResetRequired,
}

/// The reaction to an error while reading the next packet.
pub fn on_read_error(kind: MediaErrorKind) -> (r: ErrorAction)
    ensures
        r == match kind {
            MediaErrorKind::UnexpectedEof => ErrorAction::EndOfStream,
            MediaErrorKind::ResetRequired => ErrorAction::FailResetRequired,
            _ => ErrorAction::Fail,
        },
{
    match kind {
        MediaErrorKind::UnexpectedEof => ErrorAction::EndOfStream,
        MediaErrorKind::ResetRequired => ErrorAction::FailResetRequired,
        _ => ErrorAction::Fail,
    }
}

/// The reaction to an error while decoding a packet: an undecodable packet
/// is skipped.
pub fn on_decode_error(kind: MediaErrorKind) -> (r: ErrorAction)
    ensures
        r == match kind {
            MediaErrorKind::Decode => ErrorAction::SkipPacket,
            MediaErrorKind::UnexpectedEof => ErrorAction::EndOfStream,
            MediaErrorKind::ResetRequired => ErrorAction::FailResetRequired,
            _ => ErrorAction::Fail,
        },
{
    match kind {
        MediaErrorKind::Decode => ErrorAction::SkipPacket,
        MediaErrorKind::UnexpectedEof => ErrorAction::EndOfStream,
        MediaErrorKind::ResetRequired => ErrorAction::FailResetRequired,
        _ => ErrorAction::Fail,
    }
}

/// Why decoding a media file failed in a way the decoder itself reports.
pub enum MediaDecodeFailure {
    /// No track could be decoded; the last decoder error, if any.
    NoDecodableTrack(Option<String>),
    /// The decoder asked for a reset.
    ResetRequired,
    /// The file held no audio samples.
    NoSamples,
    /// No decoded packet reported a sample rate.
    UnknownSampleRate,
}

/// The message of a decoding failure.
pub open spec fn decode_failure_message(f: MediaDecodeFailure) -> Seq<char> {
    match f {
        MediaDecodeFailure::NoDecodableTrack(Some(e)) => "No decodable audio track found: "@ + e@,
        MediaDecodeFailure::NoDecodableTrack(None) => "No supported audio track found"@,
        MediaDecodeFailure::ResetRequired => "Decoder reset is required but not supported"@,
        MediaDecodeFailure::NoSamples => "No audio samples found in file"@,
        MediaDecodeFailure::UnknownSampleRate => "Could not determine media sample rate"@,
    }
}

impl MediaDecodeFailure {
    /// The message shown for the failure.
    pub fn message(&self) -> (r: String)
        ensures
            r@ == decode_failure_message(*self),
    {
        match self {
            MediaDecodeFailure::NoDecodableTrack(Some(e)) => {
                let mut s = String::from_str("No decodable audio track found: ");
                s.append(e.as_str());
                s
            },
            MediaDecodeFailure::NoDecodableTrack(None) => String::from_str(
                "No supported audio track found",
            ),
            MediaDecodeFailure::ResetRequired => String::from_str(
                "Decoder reset is required but not supported",
            ),
            MediaDecodeFailure::NoSamples => String::from_str("No audio samples found in file"),
            MediaDecodeFailure::UnknownSampleRate => String::from_str(
                "Could not determine media sample rate",
            ),
        }
    }
}

/// What probing one track of a media file gave.
pub enum TrackProbe {
    /// The track's codec is null or no decoder is registered for it.
    Unsupported,
    /// A decoder was made for the track.
    Made,
    /// Making a decoder for the track failed with this message.
    Failed(String),
}

/// The track chosen after probing `probes` in order: the first for which a
/// decoder was made; otherwise no track, with the message of the last
/// failed decoder, if any.
pub open spec fn track_choice(probes: Seq<TrackProbe>) -> Result<nat, Option<Seq<char>>>
    decreases probes.len(),
{
    if probes.len() == 0 {
        Err(None)
    } else {
        match track_choice(probes.drop_last()) {
            Ok(i) => Ok(i),
            Err(e) => match probes.last() {
                TrackProbe::Unsupported => Err(e),
                TrackProbe::Made => Ok((probes.len() - 1) as nat),
                TrackProbe::Failed(m) => Err(Some(m@)),
            },
        }
    }
}

/// The choice of the audio track to decode, made while the tracks are
/// probed one after another.
pub struct TrackChooser {
    chosen: Option<usize>,
    last_error: Option<String>,
    count: usize,
    probes: Ghost<Seq<TrackProbe>>,
}

impl TrackChooser {
    /// The probes recorded so far, in track order.
    pub closed spec fn probes(&self) -> Seq<TrackProbe> {
        self.probes@
    }

    /// The chooser's fields agree with the probes recorded.
    pub closed spec fn wf(&self) -> bool {
        &&& self.count == self.probes@.len()
        &&& match track_choice(self.probes@) {
            Ok(i) => self.chosen == Some(i as usize),
            Err(e) => self.chosen is None && match self.last_error {
                Some(m) => e == Some(m@),
                None => e is None,
            },
        }
    }

    /// No track probed yet.
    pub fn new() -> (r: Self)
        ensures
            r.wf(),
            r.probes() == Seq::<TrackProbe>::empty(),
    {
        TrackChooser { chosen: None, last_error: None, count: 0, probes: Ghost(Seq::empty()) }
    }

    /// Whether a track was chosen, so that no further track needs probing.
    pub fn is_decided(&self) -> (r: bool)
        requires
            self.wf(),
        ensures
            r == track_choice(self.probes()) is Ok,
    {
        self.chosen.is_some()
    }

    /// Records what probing the next track gave.
    pub fn record(&mut self, probe: TrackProbe)
        requires
            old(self).wf(),
            old(self).probes().len() < usize::MAX,
        ensures
            final(self).wf(),
            final(self).probes() == old(self).probes().push(probe),
    {
        let ghost before = self.probes@;
        let index = self.count;
        if self.chosen.is_none() {
            match probe {
                TrackProbe::Unsupported => {},
                TrackProbe::Made => {
                    self.chosen = Some(index);
                },
                TrackProbe::Failed(m) => {
                    self.last_error = Some(m);
                },
            }
        }
        self.count = index + 1;
        proof {
            self.probes@ = before.push(probe);
            assert(self.probes@.drop_last() =~= before);
        }
    }

    /// The index of the chosen track, or why none can be decoded.
    pub fn result(self) -> (r: Result<usize, MediaDecodeFailure>)
        requires
            self.wf(),
        ensures
            match track_choice(self.probes()) {
                Ok(i) => r == Ok::<usize, MediaDecodeFailure>(i as usize),
                Err(e) => match r {
                    Err(MediaDecodeFailure::NoDecodableTrack(m)) => match m {
                        Some(m) => e == Some(m@),
                        None => e is None,
                    },
                    _ => false,
                },
            },
    {
        match self.chosen {
            Some(i) => Ok(i),
            None => Err(MediaDecodeFailure::NoDecodableTrack(self.last_error)),
        }
    }
}

/// What the decoder does next in `decode_chunk`.
pub enum DecodeStep<T> {
    /// Return the output gathered so far as a chunk.
    ReturnChunk,
    /// Return `None`: the file is fully consumed.
    ReturnEnd,
    /// Run the resampler on this last, zero-padded block and hand its output
    /// to `push_flushed`.
    FlushResampler(Vec<T>),
    /// Read and decode the next packet.
    ReadPacket,
}

/// The sample queues of the incremental decoder.
pub struct DecodeBuffers<T> {
    pending_output: Vec<T>,
    resampler_input: Vec<T>,
    eof_reached: bool,
    source_sample_rate: usize,
    resampling: bool,
}

impl<T: Copy> DecodeBuffers<T> {
    /// Samples ready to be handed out, in order.
    pub closed spec fn pending(&self) -> Seq<T> {
        self.pending_output@
    }

    /// Samples waiting for a full resampler block.
    pub closed spec fn resampler_input(&self) -> Seq<T> {
        self.resampler_input@
    }

    /// Whether the end of the stream was reached.
    pub closed spec fn eof(&self) -> bool {
        self.eof_reached
    }

    /// The source sample rate, 0 until the first decoded packet.
    pub closed spec fn source_rate(&self) -> nat {
        self.source_sample_rate as nat
    }

    /// Whether decoded samples go through the resampler.
    pub closed spec fn resampling(&self) -> bool {
        self.resampling
    }

    /// The source sample rate, 0 until the first decoded packet.
    pub fn sample_rate(&self) -> (r: usize)
        ensures
            r == self.source_rate(),
    {
        self.source_sample_rate
    }

    /// Whether the stream is fully consumed: its end was reached, no sample
    /// waits to be handed out, and no partial resampler block waits to be
    /// flushed.
    pub open spec fn at_end(&self) -> bool {
        &&& self.eof()
        &&& self.pending().len() == 0
        &&& !(self.resampling() && self.resampler_input().len() > 0)
    }

    /// Empty queues before the first packet.
    pub fn new() -> (r: Self)
        ensures
            r.pending() == Seq::<T>::empty(),
            r.resampler_input() == Seq::<T>::empty(),
            !r.eof(),
            r.source_rate() == 0,
            !r.resampling(),
    {
        DecodeBuffers {
            pending_output: Vec::new(),
            resampler_input: Vec::new(),
            eof_reached: false,
            source_sample_rate: 0,
            resampling: false,
        }
    }

    /// The next step of `decode_chunk`, given the output gathered so far.
    ///
    /// Pending samples move to `output` until it holds `max_samples`; a full
    /// output is returned as a chunk. At the end of the stream the last
    /// partial resampler block is flushed once, padded with `zero`, and then
    /// whatever output there is is returned, or `None` when there is none.
    ///
    /// A chunk shorter than `max_samples` is returned only once the stream
    /// is fully consumed, and `None` only then; once fully consumed, every
    /// later step from an empty output returns `None` again, reads no packet
    /// and leaves the buffers as they are.
    pub fn step(&mut self, output: &mut Vec<T>, max_samples: usize, zero: T) -> (r: DecodeStep<T>)
        requires
            old(output)@.len() <= max_samples,
        ensures
            final(output)@.len() <= max_samples,
            final(output)@ + final(self).pending() == old(output)@ + old(self).pending()
                || r is FlushResampler,
            final(self).eof() == old(self).eof(),
            final(self).source_rate() == old(self).source_rate(),
            final(self).resampling() == old(self).resampling(),
            ({
                let k = if old(self).pending().len() == 0 {
                    0
                } else if max_samples - old(output)@.len() < old(self).pending().len() {
                    max_samples - old(output)@.len()
                } else {
                    old(self).pending().len() as int
                };
                &&& final(output)@ == old(output)@ + old(self).pending().take(k)
                &&& r is FlushResampler ==> final(self).pending() == old(self).pending().skip(k)
                &&& !(r is FlushResampler) ==> final(self).resampler_input() == old(
                    self,
                ).resampler_input()
            }),
            r is ReturnChunk <==> (old(self).pending().len() > 0 && final(output)@.len()
                == max_samples) || (!(old(self).pending().len() > 0 && final(output)@.len()
                == max_samples) && old(self).eof() && !(old(self).resampling()
                && old(self).resampler_input().len() > 0) && final(output)@.len() > 0),
            r is ReturnEnd <==> !(old(self).pending().len() > 0 && final(output)@.len()
                == max_samples) && old(self).eof() && !(old(self).resampling()
                && old(self).resampler_input().len() > 0) && final(output)@.len() == 0,
            r is ReadPacket <==> !(old(self).pending().len() > 0 && final(output)@.len()
                == max_samples) && !old(self).eof(),
            r matches DecodeStep::FlushResampler(block) ==> {
                &&& !(old(self).pending().len() > 0 && final(output)@.len() == max_samples)
                &&& old(self).eof()
                &&& old(self).resampling()
                &&& old(self).resampler_input().len() > 0
                &&& block@ == padded(
                    old(self).resampler_input(),
                    RESAMPLER_CHUNK_SIZE as nat,
                    zero,
                )
                &&& final(self).resampler_input() == Seq::<T>::empty()
            },
            r is ReturnChunk && final(output)@.len() < max_samples ==> final(self).at_end(),
            r is ReturnEnd ==> final(self).at_end() && final(output)@.len() == 0,
            old(self).at_end() && old(output)@.len() == 0 ==> {
                &&& r is ReturnEnd
                &&& final(self).pending() == old(self).pending()
                &&& final(self).resampler_input() == old(self).resampler_input()
                &&& final(output)@.len() == 0
            },
    {
        let ghost p0 = self.pending_output@;
        if self.pending_output.len() > 0 {
            let room = max_samples - output.len();
            let to_take = if room < self.pending_output.len() {
                room
            } else {
                self.pending_output.len()
            };
            let mut head = self.pending_output.split_off(to_take);
            std::mem::swap(&mut head, &mut self.pending_output);
            output.append(&mut head);
            assert(p0.take(to_take as int) + p0.skip(to_take as int) =~= p0);
            if output.len() >= max_samples {
                return DecodeStep::ReturnChunk;
            }
        } else {
            assert(p0.take(0) =~= Seq::<T>::empty());
            assert(output@ =~= old(output)@ + p0.take(0));
        }
        if self.eof_reached {
            if self.resampling && self.resampler_input.len() > 0 {
                let mut input = Vec::new();
                std::mem::swap(&mut input, &mut self.resampler_input);
                let block = pad_to(input, RESAMPLER_CHUNK_SIZE, zero);
                return DecodeStep::FlushResampler(block);
            }
            if output.len() == 0 {
                DecodeStep::ReturnEnd
            } else {
                DecodeStep::ReturnChunk
            }
        } else {
            DecodeStep::ReadPacket
        }
    }

    /// Queues the kept part of the resampler's output for the last block.
    /// The last block is padded to a full block before resampling, and the
    /// output is cut to what a full block (padding included) gives at
    /// 16 kHz, so the padding's share of the output is kept too.
    pub fn push_flushed(&mut self, resampled: Vec<T>)
        requires
            old(self).source_rate() > 0,
        ensures
            final(self).pending() == old(self).pending() + (if resampled_len(
                RESAMPLER_CHUNK_SIZE as nat,
                old(self).source_rate(),
            ) < resampled@.len() {
                resampled@.take(
                    resampled_len(RESAMPLER_CHUNK_SIZE as nat, old(self).source_rate()) as int,
                )
            } else {
                resampled@
            }),
            final(self).resampler_input() == old(self).resampler_input(),
            final(self).eof() == old(self).eof(),
            final(self).source_rate() == old(self).source_rate(),
            final(self).resampling() == old(self).resampling(),
    {
        let expected = expected_resampled_len(RESAMPLER_CHUNK_SIZE, self.source_sample_rate);
        let mut kept = prefix_of(resampled, expected);
        self.pending_output.append(&mut kept);
    }

    /// Marks the end of the stream.
    pub fn mark_eof(&mut self)
        ensures
            final(self).eof(),
            final(self).pending() == old(self).pending(),
            final(self).resampler_input() == old(self).resampler_input(),
            final(self).source_rate() == old(self).source_rate(),
            final(self).resampling() == old(self).resampling(),
    {
        self.eof_reached = true;
    }

    /// Records the sample rate of a decoded packet. The first packet fixes
    /// the source rate; the result says whether a resampler must be created
    /// now (the rate is known only now and is not 16 kHz).
    pub fn observe_rate(&mut self, rate: usize) -> (create_resampler: bool)
        ensures
            final(self).source_rate() == if old(self).source_rate() == 0 {
                rate as nat
            } else {
                old(self).source_rate()
            },
            create_resampler == (old(self).source_rate() == 0 && rate
                != TRANSCRIPTION_SAMPLE_RATE),
            final(self).pending() == old(self).pending(),
            final(self).resampler_input() == old(self).resampler_input(),
            final(self).eof() == old(self).eof(),
            final(self).resampling() == old(self).resampling(),
    {
        if self.source_sample_rate == 0 {
            self.source_sample_rate = rate;
            rate != TRANSCRIPTION_SAMPLE_RATE
        } else {
            false
        }
    }

    /// Records that the resampler was created.
    pub fn enable_resampling(&mut self)
        ensures
            final(self).resampling(),
            final(self).pending() == old(self).pending(),
            final(self).resampler_input() == old(self).resampler_input(),
            final(self).eof() == old(self).eof(),
            final(self).source_rate() == old(self).source_rate(),
    {
        self.resampling = true;
    }

    /// Queues the mono samples of a decoded packet: directly when no
    /// resampling is needed, else as resampler input.
    pub fn push_mono(&mut self, mono: Vec<T>)
        ensures
            !old(self).resampling() ==> final(self).pending() == old(self).pending() + mono@
                && final(self).resampler_input() == old(self).resampler_input(),
            old(self).resampling() ==> final(self).resampler_input() == old(
                self,
            ).resampler_input() + mono@ && final(self).pending() == old(self).pending(),
            final(self).eof() == old(self).eof(),
            final(self).source_rate() == old(self).source_rate(),
            final(self).resampling() == old(self).resampling(),
    {
        let mut mono = mono;
        if self.resampling {
            self.resampler_input.append(&mut mono);
        } else {
            self.pending_output.append(&mut mono);
        }
    }

    /// Takes the next full resampler block from the front of the input, if
    /// one is there.
    pub fn take_full_block(&mut self) -> (r: Option<Vec<T>>)
        ensures
            (r is Some) == (old(self).resampler_input().len() >= RESAMPLER_CHUNK_SIZE),
            r matches Some(block) ==> block@.len() == RESAMPLER_CHUNK_SIZE && block@
                + final(self).resampler_input() == old(self).resampler_input(),
            r is None ==> final(self).resampler_input() == old(self).resampler_input(),
            final(self).pending() == old(self).pending(),
            final(self).eof() == old(self).eof(),
            final(self).source_rate() == old(self).source_rate(),
            final(self).resampling() == old(self).resampling(),
    {
        if self.resampler_input.len() >= RESAMPLER_CHUNK_SIZE {
            let ghost before = self.resampler_input@;
            let mut block = self.resampler_input.split_off(RESAMPLER_CHUNK_SIZE);
            std::mem::swap(&mut block, &mut self.resampler_input);
            assert(block@ + self.resampler_input@ =~= before);
            Some(block)
        } else {
            None
        }
    }

    /// Queues the resampler's output for a full block.
    pub fn push_resampled(&mut self, resampled: Vec<T>)
        ensures
            final(self).pending() == old(self).pending() + resampled@,
            final(self).resampler_input() == old(self).resampler_input(),
            final(self).eof() == old(self).eof(),
            final(self).source_rate() == old(self).source_rate(),
            final(self).resampling() == old(self).resampling(),
    {
        let mut resampled = resampled;
        self.pending_output.append(&mut resampled);
    }
}

} // verus!
