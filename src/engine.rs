//! Filling the interleaved buffers that a live output stream hands over.
use crate::format::{i16_sample, sample_i16, sample_u16, u16_sample};
use crate::output::PipelineError;
use vstd::prelude::*;

verus! {

/// Context threaded through the callbacks of one live stream.
pub struct SampleRequestOptions {
    pub sample_rate: u32,
    pub sample_clock: u64,
    pub nchannels: usize,
}

impl SampleRequestOptions {
    /// A fresh context: the clock starts at zero.
    pub fn new(sample_rate: u32, nchannels: usize) -> (r: SampleRequestOptions)
        ensures
            r.sample_rate == sample_rate,
            r.nchannels == nchannels,
            r.sample_clock == 0,
    {
        SampleRequestOptions { sample_rate, sample_clock: 0, nchannels }
    }
}

/// Every frame holds exactly `n` samples.
pub open spec fn frames_fit<T>(frames: Seq<Vec<T>>, n: usize) -> bool {
    forall|f: int| 0 <= f < frames.len() ==> (#[trigger] frames[f])@.len() == n
}

/// The error owed for frames that do not all hold `n` samples.
pub open spec fn is_mismatch_of<T>(e: PipelineError, frames: Seq<Vec<T>>, n: usize) -> bool {
    exists|f: int|
        0 <= f < frames.len() && (#[trigger] frames[f])@.len() != n && e
            == PipelineError::FrameLengthMismatch { expected: n, found: frames[f]@.len() as usize }
}

/// Slot `i` of an interleaved buffer holds channel `i % n` of frame `i / n`.
pub open spec fn interleaved<T, U>(out: Seq<U>, frames: Seq<Vec<T>>, n: usize, conv: spec_fn(
    T,
) -> U) -> bool {
    forall|i: int|
        0 <= i < out.len() ==> #[trigger] out[i] == conv(frames[i / (n as int)]@[i % (n as int)])
}

/// How many frames a buffer of `len` slots holds.
pub fn window_frames(len: usize, nchannels: usize) -> (r: usize)
    requires
        nchannels > 0,
    ensures
        r == len / nchannels,
{
    len / nchannels
}

/// Checks that every frame holds `nchannels` samples.
pub fn check_frames<T>(frames: &[Vec<T>], nchannels: usize) -> (r: Result<(), PipelineError>)
    ensures
        r is Ok <==> frames_fit(frames@, nchannels),
        r matches Err(e) ==> is_mismatch_of(e, frames@, nchannels),
{
    let mut f: usize = 0;
    while f < frames.len()
        invariant
            f <= frames@.len(),
            forall|g: int| 0 <= g < f ==> (#[trigger] frames@[g])@.len() == nchannels,
        decreases frames@.len() - f,
    {
        let len = frames[f].len();
        if len != nchannels {
            assert(frames@[f as int]@.len() != nchannels);
            return Err(PipelineError::FrameLengthMismatch { expected: nchannels, found: len });
        }
        f = f + 1;
    }
    Ok(())
}

proof fn lemma_slot_in_frame(i: int, n: int, frames: int)
    requires
        n > 0,
        0 <= i < frames * n,
    ensures
        0 <= i / n < frames,
        0 <= i % n < n,
{
    vstd::arithmetic::div_mod::lemma_div_pos_is_pos(i, n);
    vstd::arithmetic::div_mod::lemma_div_is_ordered(i, frames * n - 1, n);
    vstd::arithmetic::div_mod::lemma_fundamental_div_mod(i, n);
    assert((frames * n - 1) / n < frames) by {
        vstd::arithmetic::div_mod::lemma_div_multiples_vanish_fancy(frames - 1, n - 1, n);
        assert(n * (frames - 1) + (n - 1) == frames * n - 1) by (nonlinear_arith);
    }
}

pub open spec fn as_i16(b: u32) -> i16 {
    i16_sample(b) as i16
}

pub open spec fn as_u16(b: u32) -> u16 {
    u16_sample(b) as u16
}

pub open spec fn same<T>(x: T) -> T {
    x
}

/// Fills a signed 16-bit buffer, one frame after another, and advances the
/// sample clock by the number of frames written. The caller pulls
/// `window_frames` frames for the buffer. A frame of the wrong length is
/// reported and the buffer is left as it was.
pub fn render_window_i16(
    output: &mut [i16],
    request: &mut SampleRequestOptions,
    frames: &[Vec<u32>],
) -> (r: Result<(), PipelineError>)
    requires
        old(request).nchannels > 0,
        frames@.len() * old(request).nchannels == old(output)@.len(),
    ensures
        final(request).nchannels == old(request).nchannels,
        final(request).sample_rate == old(request).sample_rate,
        r is Ok <==> frames_fit(frames@, old(request).nchannels),
        r matches Err(e) ==> is_mismatch_of(e, frames@, old(request).nchannels) && final(output)@
            == old(output)@ && final(request).sample_clock == old(request).sample_clock,
        r is Ok ==> final(output)@.len() == old(output)@.len() && interleaved(
            final(output)@,
            frames@,
            old(request).nchannels,
            |b: u32| as_i16(b),
        ) && final(request).sample_clock == (old(request).sample_clock + frames@.len()) % 0x1_0000_0000_0000_0000,
{
    let n = request.nchannels;
    check_frames(frames, n)?;
    let len = output.len();
    let mut i: usize = 0;
    while i < len
        invariant
            n > 0,
            len == output@.len(),
            frames@.len() * n == len,
            frames_fit(frames@, n),
            i <= len,
            forall|j: int|
                0 <= j < i ==> #[trigger] output@[j] == as_i16(frames@[j / (n as int)]@[j % (n as int)]),
        decreases len - i,
    {
        proof {
            lemma_slot_in_frame(i as int, n as int, frames@.len() as int);
        }
        let s = sample_i16(frames[i / n][i % n]);
        output[i] = s;
        i = i + 1;
    }
    request.sample_clock = request.sample_clock.wrapping_add(frames.len() as u64);
    Ok(())
}

/// Fills an unsigned 16-bit buffer, one frame after another, and advances the
/// sample clock by the number of frames written. The caller pulls
/// `window_frames` frames for the buffer. A frame of the wrong length is
/// reported and the buffer is left as it was.
pub fn render_window_u16(
    output: &mut [u16],
    request: &mut SampleRequestOptions,
    frames: &[Vec<u32>],
) -> (r: Result<(), PipelineError>)
    requires
        old(request).nchannels > 0,
        frames@.len() * old(request).nchannels == old(output)@.len(),
    ensures
        final(request).nchannels == old(request).nchannels,
        final(request).sample_rate == old(request).sample_rate,
        r is Ok <==> frames_fit(frames@, old(request).nchannels),
        r matches Err(e) ==> is_mismatch_of(e, frames@, old(request).nchannels) && final(output)@
            == old(output)@ && final(request).sample_clock == old(request).sample_clock,
        r is Ok ==> final(output)@.len() == old(output)@.len() && interleaved(
            final(output)@,
            frames@,
            old(request).nchannels,
            |b: u32| as_u16(b),
        ) && final(request).sample_clock == (old(request).sample_clock + frames@.len()) % 0x1_0000_0000_0000_0000,
{
    let n = request.nchannels;
    check_frames(frames, n)?;
    let len = output.len();
    let mut i: usize = 0;
    while i < len
        invariant
            n > 0,
            len == output@.len(),
            frames@.len() * n == len,
            frames_fit(frames@, n),
            i <= len,
            forall|j: int|
                0 <= j < i ==> #[trigger] output@[j] == as_u16(frames@[j / (n as int)]@[j % (n as int)]),
        decreases len - i,
    {
        proof {
            lemma_slot_in_frame(i as int, n as int, frames@.len() as int);
        }
        let s = sample_u16(frames[i / n][i % n]);
        output[i] = s;
        i = i + 1;
    }
    request.sample_clock = request.sample_clock.wrapping_add(frames.len() as u64);
    Ok(())
}

/// Fills a buffer whose native samples are the source's own (the
/// float-32 target), copying them unchanged, one frame after another, and advances the
/// sample clock by the number of frames written. The caller pulls
/// `window_frames` frames for the buffer. A frame of the wrong length is
/// reported and the buffer is left as it was.
pub fn render_window_native<T: Copy>(
    output: &mut [T],
    request: &mut SampleRequestOptions,
    frames: &[Vec<T>],
) -> (r: Result<(), PipelineError>)
    requires
        old(request).nchannels > 0,
        frames@.len() * old(request).nchannels == old(output)@.len(),
    ensures
        final(request).nchannels == old(request).nchannels,
        final(request).sample_rate == old(request).sample_rate,
        r is Ok <==> frames_fit(frames@, old(request).nchannels),
        r matches Err(e) ==> is_mismatch_of(e, frames@, old(request).nchannels) && final(output)@
            == old(output)@ && final(request).sample_clock == old(request).sample_clock,
        r is Ok ==> final(output)@.len() == old(output)@.len() && interleaved(
            final(output)@,
            frames@,
            old(request).nchannels,
            |b: T| same(b),
        ) && final(request).sample_clock == (old(request).sample_clock + frames@.len()) % 0x1_0000_0000_0000_0000,
{
    let n = request.nchannels;
    check_frames(frames, n)?;
    let len = output.len();
    let mut i: usize = 0;
    while i < len
        invariant
            n > 0,
            len == output@.len(),
            frames@.len() * n == len,
            frames_fit(frames@, n),
            i <= len,
            forall|j: int|
                0 <= j < i ==> #[trigger] output@[j] == same(frames@[j / (n as int)]@[j % (n as int)]),
        decreases len - i,
    {
        proof {
            lemma_slot_in_frame(i as int, n as int, frames@.len() as int);
        }
        let s = frames[i / n][i % n];
        output[i] = s;
        i = i + 1;
    }
    request.sample_clock = request.sample_clock.wrapping_add(frames.len() as u64);
    Ok(())
}

} // verus!
