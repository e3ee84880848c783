//! Framing of audio for voice activity detection: the detector takes frames
//! of 30 ms (480 samples at 16 kHz); the last partial frame is padded with
//! silence, and the stream is flushed with trailing silent frames.
use vstd::prelude::*;
use crate::decoding::{block_at, block_count, block_end, copy_range, pad_to};

verus! {

/// Samples per detector frame (30 ms at 16 kHz).
pub const VAD_FRAME_SIZE: usize = 480;

/// Silent frames fed at the end of a stream to release buffered speech.
pub const VAD_TRAILING_FRAMES: usize = 20;

/// Number of frames `len` samples make.
pub open spec fn frame_count(len: nat) -> nat {
    block_count(len, VAD_FRAME_SIZE as nat)
}

/// The `k`-th frame of `s`: its samples from `480 k` on, at most 480 of
/// them, padded with `zero` to a full frame.
pub open spec fn frame_at<T>(s: Seq<T>, k: int, zero: T) -> Seq<T> {
    block_at(s, k, VAD_FRAME_SIZE as nat, zero)
}

/// The detector frames of `s`, in order.
pub open spec fn frames_of<T>(s: Seq<T>, zero: T) -> Seq<Seq<T>> {
    Seq::new(frame_count(s.len()), |k: int| frame_at(s, k, zero))
}

/// The silent frames fed at the end of a stream.
pub open spec fn silent_frames<T>(zero: T) -> Seq<Seq<T>> {
    Seq::new(
        VAD_TRAILING_FRAMES as nat,
        |_k: int| Seq::new(VAD_FRAME_SIZE as nat, |_i: int| zero),
    )
}

/// The frames the whole-buffer filter feeds the detector for `s`: none for
/// empty audio, else the frames of `s` followed by the silent frames.
pub open spec fn filter_frames<T>(s: Seq<T>, zero: T) -> Seq<Seq<T>> {
    if s.len() == 0 {
        Seq::empty()
    } else {
        frames_of(s, zero) + silent_frames(zero)
    }
}

/// The frames a streaming filter feeds the detector for the chunks
/// `pushes`, pushed one after another (each framed on its own).
pub open spec fn pushed_frames<T>(pushes: Seq<Seq<T>>, zero: T) -> Seq<Seq<T>>
    decreases pushes.len(),
{
    if pushes.len() == 0 {
        Seq::empty()
    } else {
        pushed_frames(pushes.drop_last(), zero) + frames_of(pushes.last(), zero)
    }
}

/// The chunks `pushes` one after another.
pub open spec fn concat_chunks<T>(pushes: Seq<Seq<T>>) -> Seq<T>
    decreases pushes.len(),
{
    if pushes.len() == 0 {
        Seq::empty()
    } else {
        concat_chunks(pushes.drop_last()) + pushes.last()
    }
}

proof fn lemma_frame_arith(k: int, na: int, la: int)
    requires
        la == na * 480,
        0 <= na,
    ensures
        k < na ==> (k + 1) * 480 <= la,
        k * 480 == la + (k - na) * 480,
        (k + 1) * 480 == la + (k - na + 1) * 480,
{
    assert(k < na ==> (k + 1) * 480 <= na * 480) by (nonlinear_arith);
    assert(k * 480 == na * 480 + (k - na) * 480) by (nonlinear_arith);
    assert((k + 1) * 480 == na * 480 + (k - na + 1) * 480) by (nonlinear_arith);
}

/// Framing a concatenation at a frame boundary gives the frames of the two
/// parts one after the other; an empty chunk gives no frame.
pub proof fn lemma_frames_concat<T>(a: Seq<T>, b: Seq<T>, zero: T)
    requires
        a.len() % (VAD_FRAME_SIZE as nat) == 0,
    ensures
        frames_of(a + b, zero) == frames_of(a, zero) + frames_of(b, zero),
        frames_of(Seq::<T>::empty(), zero) == Seq::<Seq<T>>::empty(),
{
    let la = a.len() as int;
    let lb = b.len() as int;
    let na = la / 480;
    assert(la == na * 480);
    assert(frame_count((la + lb) as nat) == na + frame_count(lb as nat)) by (nonlinear_arith)
        requires
            la == na * 480,
            na >= 0,
            lb >= 0,
    ;
    assert(frames_of(Seq::<T>::empty(), zero) =~= Seq::<Seq<T>>::empty());
    let ab = a + b;
    let lhs = frames_of(ab, zero);
    let rhs = frames_of(a, zero) + frames_of(b, zero);
    assert(frame_count(la as nat) == na) by (nonlinear_arith)
        requires
            la == na * 480,
            na >= 0,
    ;
    assert forall|k: int| 0 <= k < lhs.len() implies lhs[k] == rhs[k] by {
        lemma_frame_arith(k, na, la);
        if k < na {
            assert(ab.subrange(k * 480, block_end(ab.len(), k, 480)) =~= a.subrange(
                k * 480,
                block_end(a.len(), k, 480),
            ));
        } else {
            let j = k - na;
            assert(block_end(ab.len(), k, 480) == la + block_end(b.len(), j, 480));
            assert(ab.subrange(k * 480, block_end(ab.len(), k, 480)) =~= b.subrange(
                j * 480,
                block_end(b.len(), j, 480),
            ));
        }
    }
    assert(lhs =~= rhs);
}

proof fn lemma_concat_len_multiple<T>(pushes: Seq<Seq<T>>)
    requires
        forall|i: int|
            0 <= i < pushes.len() ==> (#[trigger] pushes[i]).len() % (VAD_FRAME_SIZE as nat) == 0,
    ensures
        concat_chunks(pushes).len() % (VAD_FRAME_SIZE as nat) == 0,
    decreases pushes.len(),
{
    if pushes.len() > 0 {
        let p = pushes.drop_last();
        assert forall|i: int| 0 <= i < p.len() implies (#[trigger] p[i]).len() % (
        VAD_FRAME_SIZE as nat) == 0 by {
            assert(p[i] == pushes[i]);
        }
        lemma_concat_len_multiple(p);
        let x = concat_chunks(p).len() as int;
        let y = pushes.last().len() as int;
        assert((x + y) % 480 == 0) by (nonlinear_arith)
            requires
                x % 480 == 0,
                y % 480 == 0,
                x >= 0,
                y >= 0,
        ;
    }
}

/// A streaming filter feeds the detector the same frames as the
/// whole-buffer filter: when every chunk but the last holds whole frames,
/// the frames of the chunks pushed one after another are the frames of
/// their concatenation; so pushing the chunks and then flushing (the
/// silent frames) feeds exactly the frames the whole-buffer filter feeds
/// for the concatenated audio, when it is not empty.
pub proof fn lemma_push_then_flush<T>(pushes: Seq<Seq<T>>, zero: T)
    requires
        forall|i: int|
            0 <= i < pushes.len() - 1 ==> (#[trigger] pushes[i]).len() % (VAD_FRAME_SIZE as nat)
                == 0,
    ensures
        pushed_frames(pushes, zero) == frames_of(concat_chunks(pushes), zero),
        concat_chunks(pushes).len() > 0 ==> pushed_frames(pushes, zero) + silent_frames(zero)
            == filter_frames(concat_chunks(pushes), zero),
    decreases pushes.len(),
{
    if pushes.len() == 0 {
        assert(frames_of(Seq::<T>::empty(), zero) =~= Seq::<Seq<T>>::empty());
    } else {
        let p = pushes.drop_last();
        assert forall|i: int| 0 <= i < p.len() implies (#[trigger] p[i]).len() % (
        VAD_FRAME_SIZE as nat) == 0 by {
            assert(p[i] == pushes[i]);
        }
        assert forall|i: int| 0 <= i < p.len() - 1 implies (#[trigger] p[i]).len() % (
        VAD_FRAME_SIZE as nat) == 0 by {
            assert(p[i] == pushes[i]);
        }
        lemma_push_then_flush(p, zero);
        lemma_concat_len_multiple(p);
        lemma_frames_concat(concat_chunks(p), pushes.last(), zero);
    }
}

/// Splits `samples` into detector frames, padding the last with `zero`.
pub fn split_into_frames<T: Copy>(samples: &[T], zero: T) -> (r: Vec<Vec<T>>)
    ensures
        r@.map_values(|f: Vec<T>| f@) == frames_of(samples@, zero),
        r@.len() == frame_count(samples@.len()),
        forall|k: int| 0 <= k < r@.len() ==> (#[trigger] r@[k])@ == frame_at(samples@, k, zero),
        forall|k: int| 0 <= k < r@.len() ==> (#[trigger] r@[k])@.len() == VAD_FRAME_SIZE,
{
    let n = samples.len();
    let count = if n % VAD_FRAME_SIZE == 0 {
        n / VAD_FRAME_SIZE
    } else {
        n / VAD_FRAME_SIZE + 1
    };
    let mut frames: Vec<Vec<T>> = Vec::new();
    let mut k: usize = 0;
    while k < count
        invariant
            n == samples@.len(),
            count == frame_count(n as nat),
            k <= count,
            frames@.len() == k,
            forall|j: int|
                0 <= j < frames@.len() ==> (#[trigger] frames@[j])@ == frame_at(samples@, j, zero),
            forall|j: int| 0 <= j < frames@.len() ==> (#[trigger] frames@[j])@.len() == VAD_FRAME_SIZE,
        decreases count - k,
    {
        assert(k * 480 < n) by (nonlinear_arith)
            requires
                k < count,
                n % 480 == 0 ==> count == n / 480,
                n % 480 != 0 ==> count == n / 480 + 1,
        ;
        let start = k * VAD_FRAME_SIZE;
        let end = if n - start >= VAD_FRAME_SIZE {
            start + VAD_FRAME_SIZE
        } else {
            n
        };
        let chunk = copy_range(samples, start, end);
        let frame = pad_to(chunk, VAD_FRAME_SIZE, zero);
        assert(frame@ == frame_at(samples@, k as int, zero));
        frames.push(frame);
        k = k + 1;
    }
    assert(frames@.map_values(|f: Vec<T>| f@) =~= frames_of(samples@, zero));
    frames
}

/// A frame of silence.
pub fn silence_frame<T: Copy>(zero: T) -> (r: Vec<T>)
    ensures
        r@ == Seq::new(VAD_FRAME_SIZE as nat, |_i: int| zero),
{
    let r = pad_to(Vec::new(), VAD_FRAME_SIZE, zero);
    assert(r@ =~= Seq::new(VAD_FRAME_SIZE as nat, |_i: int| zero));
    r
}

/// The silent frames fed at the end of a stream, as the streaming filter's
/// flush and the whole-buffer filter both feed them.
pub fn trailing_silence<T: Copy>(zero: T) -> (r: Vec<Vec<T>>)
    ensures
        r@.map_values(|f: Vec<T>| f@) == silent_frames(zero),
{
    let mut frames: Vec<Vec<T>> = Vec::new();
    let mut k: usize = 0;
    while k < VAD_TRAILING_FRAMES
        invariant
            k <= VAD_TRAILING_FRAMES,
            frames@.len() == k,
            forall|j: int|
                0 <= j < k ==> (#[trigger] frames@[j])@ == Seq::new(
                    VAD_FRAME_SIZE as nat,
                    |_i: int| zero,
                ),
        decreases VAD_TRAILING_FRAMES - k,
    {
        frames.push(silence_frame(zero));
        k = k + 1;
    }
    assert(frames@.map_values(|f: Vec<T>| f@) =~= silent_frames(zero));
    frames
}

} // verus!
