//! The bounded-length file path: how many frames a file holds and what is
//! written for each of them.
use crate::engine::{as_i16, as_u16};
use crate::format::{sample_i16, sample_u16};
use crate::output::{spec_target_format, PipelineError, SampleFormat, WavOutput};
use vstd::prelude::*;

verus! {

/// Frames in a file of `duration` seconds at `rate` frames per second.
pub open spec fn spec_total_frames(duration: usize, rate: u32) -> int {
    duration as int * rate as int
}

/// Frames granted by `calls` requests to a plan that has `written` of `total`.
pub open spec fn granted_after(total: nat, written: nat, calls: nat) -> nat
    decreases calls,
{
    if calls == 0 {
        0
    } else if written < total {
        1 + granted_after(total, written + 1, (calls - 1) as nat)
    } else {
        granted_after(total, written, (calls - 1) as nat)
    }
}

/// The samples written for a sequence of frames, one frame after another.
pub open spec fn payload_i16(frames: Seq<Seq<u32>>) -> Seq<i16>
    decreases frames.len(),
{
    if frames.len() == 0 {
        Seq::empty()
    } else {
        payload_i16(frames.drop_last()) + frames.last().map_values(|b: u32| as_i16(b))
    }
}

/// The sample sequences of a run of frames.
pub open spec fn frame_views(frames: Seq<Vec<u32>>) -> Seq<Seq<u32>> {
    frames.map_values(|f: Vec<u32>| f@)
}

/// The progress of one export: how many frames the file holds, in which
/// channel count and representation, and how many have been handed out.
pub struct ExportPlan {
    total_frames: u64,
    channels: u16,
    format: SampleFormat,
    written: u64,
}

impl ExportPlan {
    pub closed spec fn spec_total(&self) -> u64 {
        self.total_frames
    }

    pub closed spec fn spec_channels(&self) -> u16 {
        self.channels
    }

    pub closed spec fn spec_format(&self) -> SampleFormat {
        self.format
    }

    pub closed spec fn spec_written(&self) -> u64 {
        self.written
    }

    pub closed spec fn wf(&self) -> bool {
        self.written <= self.total_frames
    }

    /// What a plan made for `output` holds.
    pub open spec fn new_ok(output: WavOutput, p: ExportPlan) -> bool {
        &&& p.wf()
        &&& p.spec_written() == 0
        &&& p.spec_total() == spec_total_frames(output.duration, output.spec.sample_rate)
        &&& p.spec_channels() == output.spec.channels
        &&& Some(p.spec_format()) == spec_target_format(output.spec)
    }

    /// The error owed for `output`: an unsupported format first, then a
    /// frame count that does not fit.
    pub open spec fn new_err(output: WavOutput, e: PipelineError) -> bool {
        if spec_target_format(output.spec) is None {
            e == PipelineError::UnsupportedSampleFormat
        } else {
            spec_total_frames(output.duration, output.spec.sample_rate) > u64::MAX && e
                == PipelineError::DurationTooLong
        }
    }

    /// The plan for a file destination. Its frame count is the duration
    /// times the sample rate; the format must be 16-bit integers or 32-bit
    /// floats.
    pub fn new(output: &WavOutput) -> (r: Result<ExportPlan, PipelineError>)
        ensures
            r is Ok <==> spec_target_format(output.spec) is Some && spec_total_frames(
                output.duration,
                output.spec.sample_rate,
            ) <= u64::MAX,
            r matches Ok(p) ==> ExportPlan::new_ok(*output, p),
            r matches Err(e) ==> ExportPlan::new_err(*output, e),
    {
        let format = output.spec.target_format()?;
        let duration = output.duration as u64;
        let rate = output.spec.sample_rate as u64;
        match duration.checked_mul(rate) {
            Some(total) => Ok(
                ExportPlan { total_frames: total, channels: output.spec.channels, format, written: 0 },
            ),
            None => Err(PipelineError::DurationTooLong),
        }
    }

    /// Frames the file holds.
    pub fn total_frames(&self) -> (r: u64)
        ensures
            r == self.spec_total(),
    {
        self.total_frames
    }

    /// Samples per frame.
    pub fn channels(&self) -> (r: u16)
        ensures
            r == self.spec_channels(),
    {
        self.channels
    }

    /// The representation the samples are written in.
    pub fn format(&self) -> (r: SampleFormat)
        ensures
            r == self.spec_format(),
    {
        self.format
    }

    /// Frames handed out so far.
    pub fn written(&self) -> (r: u64)
        ensures
            r == self.spec_written(),
    {
        self.written
    }

    /// Frames still to be handed out.
    pub fn remaining(&self) -> (r: u64)
        requires
            self.wf(),
        ensures
            r == self.spec_total() - self.spec_written(),
    {
        self.total_frames - self.written
    }

    /// Claims the next frame of the file: true while frames are left.
    pub fn next_frame(&mut self) -> (r: bool)
        requires
            old(self).wf(),
        ensures
            final(self).wf(),
            r == (old(self).spec_written() < old(self).spec_total()),
            final(self).spec_written() == if r {
                old(self).spec_written() + 1
            } else {
                old(self).spec_written() as int
            },
            final(self).spec_total() == old(self).spec_total(),
            final(self).spec_channels() == old(self).spec_channels(),
            final(self).spec_format() == old(self).spec_format(),
    {
        if self.written < self.total_frames {
            self.written = self.written + 1;
            true
        } else {
            false
        }
    }

    /// Checks that a frame holds one sample per channel.
    pub fn check_frame<T>(&self, frame: &Vec<T>) -> (r: Result<(), PipelineError>)
        ensures
            r is Ok <==> frame@.len() == self.spec_channels(),
            r matches Err(e) ==> e == (PipelineError::FrameLengthMismatch {
                expected: self.spec_channels() as usize,
                found: frame@.len() as usize,
            }),
    {
        if frame.len() != self.channels as usize {
            Err(
                PipelineError::FrameLengthMismatch {
                    expected: self.channels as usize,
                    found: frame.len(),
                },
            )
        } else {
            Ok(())
        }
    }

    /// The signed 16-bit samples written for one frame.
    pub fn render_frame_i16(&self, frame: &Vec<u32>) -> (r: Result<Vec<i16>, PipelineError>)
        ensures
            r is Ok <==> frame@.len() == self.spec_channels(),
            r matches Err(e) ==> e == (PipelineError::FrameLengthMismatch {
                expected: self.spec_channels() as usize,
                found: frame@.len() as usize,
            }),
            r matches Ok(v) ==> v@ == frame@.map_values(|b: u32| as_i16(b)),
    {
        self.check_frame(frame)?;
        let mut v: Vec<i16> = Vec::new();
        let mut i: usize = 0;
        while i < frame.len()
            invariant
                i <= frame@.len(),
                v@ == frame@.take(i as int).map_values(|b: u32| as_i16(b)),
            decreases frame@.len() - i,
        {
            v.push(sample_i16(frame[i]));
            i = i + 1;
            assert(frame@.take(i as int).drop_last() == frame@.take(i - 1));
        }
        assert(frame@.take(i as int) == frame@);
        Ok(v)
    }

    /// The unsigned 16-bit samples written for one frame.
    pub fn render_frame_u16(&self, frame: &Vec<u32>) -> (r: Result<Vec<u16>, PipelineError>)
        ensures
            r is Ok <==> frame@.len() == self.spec_channels(),
            r matches Err(e) ==> e == (PipelineError::FrameLengthMismatch {
                expected: self.spec_channels() as usize,
                found: frame@.len() as usize,
            }),
            r matches Ok(v) ==> v@ == frame@.map_values(|b: u32| as_u16(b)),
    {
        self.check_frame(frame)?;
        let mut v: Vec<u16> = Vec::new();
        let mut i: usize = 0;
        while i < frame.len()
            invariant
                i <= frame@.len(),
                v@ == frame@.take(i as int).map_values(|b: u32| as_u16(b)),
            decreases frame@.len() - i,
        {
            v.push(sample_u16(frame[i]));
            i = i + 1;
            assert(frame@.take(i as int).drop_last() == frame@.take(i - 1));
        }
        assert(frame@.take(i as int) == frame@);
        Ok(v)
    }

    /// The signed 16-bit payload of a run of frames: each frame's samples,
    /// one frame after another. A frame of the wrong length is reported.
    pub fn render_frames_i16(&self, frames: &[Vec<u32>]) -> (r: Result<Vec<i16>, PipelineError>)
        ensures
            r is Ok <==> (forall|f: int|
                0 <= f < frames@.len() ==> (#[trigger] frames@[f])@.len() == self.spec_channels()),
            r matches Err(e) ==> (exists|f: int|
                0 <= f < frames@.len() && e == (PipelineError::FrameLengthMismatch {
                    expected: self.spec_channels() as usize,
                    found: (#[trigger] frames@[f])@.len() as usize,
                }) && frames@[f]@.len() != self.spec_channels()),
            r matches Ok(v) ==> v@ == payload_i16(frame_views(frames@)),
    {
        let mut out: Vec<i16> = Vec::new();
        let mut f: usize = 0;
        while f < frames.len()
            invariant
                f <= frames@.len(),
                forall|g: int| 0 <= g < f ==> (#[trigger] frames@[g])@.len() == self.spec_channels(),
                out@ == payload_i16(frame_views(frames@.take(f as int))),
            decreases frames@.len() - f,
        {
            let mut samples = match self.render_frame_i16(&frames[f]) {
                Ok(v) => v,
                Err(e) => {
                    assert(frames@[f as int]@.len() != self.spec_channels());
                    return Err(e);
                },
            };
            proof {
                let prev = frame_views(frames@.take(f as int));
                let next = frame_views(frames@.take(f + 1));
                assert(next.drop_last() =~= prev);
                assert(next.last() == frames@[f as int]@);
            }
            out.append(&mut samples);
            f = f + 1;
        }
        assert(frames@.take(f as int) =~= frames@);
        Ok(out)
    }
}

/// A plan hands out exactly its total number of frames: asked any number of
/// times at least that large, it grants that many and no more.
pub proof fn lemma_plan_grants_total(total: nat, written: nat, calls: nat)
    requires
        written <= total,
        calls >= total - written,
    ensures
        granted_after(total, written, calls) == total - written,
    decreases calls,
{
    if calls > 0 {
        if written < total {
            lemma_plan_grants_total(total, written + 1, (calls - 1) as nat);
        } else {
            lemma_plan_grants_total(total, written, (calls - 1) as nat);
        }
    }
}

/// The payload of a file holds one sample per channel for each frame.
pub proof fn lemma_payload_length(frames: Seq<Seq<u32>>, channels: nat)
    requires
        forall|f: int| 0 <= f < frames.len() ==> (#[trigger] frames[f]).len() == channels,
    ensures
        payload_i16(frames).len() == frames.len() * channels,
    decreases frames.len(),
{
    if frames.len() > 0 {
        lemma_payload_length(frames.drop_last(), channels);
        assert(frames.last().len() == channels);
        assert((frames.len() - 1) * channels + channels == frames.len() * channels)
            by (nonlinear_arith);
    }
}

/// The payload of a run is a function of its frames alone, built one frame
/// at a time: equal frames give equal payloads, and each payload is the
/// previous frames' payload followed by the last frame's samples.
pub proof fn lemma_payload_deterministic(a: Seq<Seq<u32>>, b: Seq<Seq<u32>>)
    requires
        a == b,
    ensures
        payload_i16(a) == payload_i16(b),
        a.len() > 0 ==> payload_i16(a) == payload_i16(a.drop_last()) + a.last().map_values(
            |x: u32| as_i16(x),
        ),
{
}

} // verus!
