//! Destinations of a pipeline run and the errors a run can end with.
use vstd::prelude::*;

verus! {

/// Native representation of the samples a destination stores.
#[derive(Clone, Copy, Debug, PartialEq, Eq, Structural)]
pub enum SampleFormat {
    I16,
    U16,
    F32,
}

/// Integer or floating-point samples in a file container.
#[derive(Clone, Copy, Debug, PartialEq, Eq, Structural)]
pub enum WavSampleFormat {
    Int,
    Float,
}

/// Why a run ended without success.
#[derive(Clone, Copy, Debug, PartialEq, Eq, Structural)]
pub enum PipelineError {
    /// No default output device, or no configuration could be negotiated.
    DeviceUnavailable,
    /// The destination asks for a sample representation the pipeline lacks.
    UnsupportedSampleFormat,
    /// The hardware refused to begin playback.
    StreamStartFailure,
    /// Opening, writing or finalizing the file failed.
    FileIoFailure,
    /// The termination hook could not be registered.
    SignalHandlerInstallFailure,
    /// A source produced a frame whose length is not the channel count.
    FrameLengthMismatch { expected: usize, found: usize },
    /// The requested duration holds more frames than can be counted.
    DurationTooLong,
}

/// Format of a file destination: rate, channel count, depth and kind.
#[derive(Clone, Copy, Debug, PartialEq, Eq, Structural)]
pub struct WavSpec {
    pub channels: u16,
    pub sample_rate: u32,
    pub bits_per_sample: u16,
    pub sample_format: WavSampleFormat,
}

/// A bounded-length file destination.
pub struct WavOutput {
    pub path: String,
    pub spec: WavSpec,
    pub duration: usize,
}

/// The configuration negotiated for a live output device.
#[derive(Clone, Copy, Debug, PartialEq, Eq, Structural)]
pub struct StreamSetup {
    pub channels: u16,
    pub sample_rate: u32,
    pub sample_format: SampleFormat,
}

/// A live hardware destination, described by its stream configuration.
pub struct DirectOutput {
    pub config: StreamSetup,
}

/// Where the samples of one run go.
pub enum AudioOutput {
    Wav(WavOutput),
    Direct(DirectOutput),
}

/// Default sample rate of a file destination.
pub const DEFAULT_SAMPLE_RATE: u32 = 44100;

/// Default duration of a file destination, in seconds.
pub const DEFAULT_DURATION: usize = 3;

/// Default channel count of a file destination.
pub const DEFAULT_CHANNELS: u16 = 2;

/// Default bit depth of a file destination.
pub const DEFAULT_BITS_PER_SAMPLE: u16 = 16;

/// The sample representation that a file format maps to, if any.
pub open spec fn spec_target_format(spec: WavSpec) -> Option<SampleFormat> {
    if spec.sample_format == WavSampleFormat::Int && spec.bits_per_sample == 16 {
        Some(SampleFormat::I16)
    } else if spec.sample_format == WavSampleFormat::Float && spec.bits_per_sample == 32 {
        Some(SampleFormat::F32)
    } else {
        None
    }
}

impl WavSpec {
    /// The sample representation written for this file format.
    pub fn target_format(&self) -> (r: Result<SampleFormat, PipelineError>)
        ensures
            r == (match spec_target_format(*self) {
                Some(f) => Ok(f),
                None => Err(PipelineError::UnsupportedSampleFormat),
            }),
    {
        match self.sample_format {
            WavSampleFormat::Int => {
                if self.bits_per_sample == 16 {
                    Ok(SampleFormat::I16)
                } else {
                    Err(PipelineError::UnsupportedSampleFormat)
                }
            },
            WavSampleFormat::Float => {
                if self.bits_per_sample == 32 {
                    Ok(SampleFormat::F32)
                } else {
                    Err(PipelineError::UnsupportedSampleFormat)
                }
            },
        }
    }
}

impl AudioOutput {
    pub open spec fn spec_sample_rate(&self) -> u32 {
        match self {
            AudioOutput::Wav(params) => params.spec.sample_rate,
            AudioOutput::Direct(params) => params.config.sample_rate,
        }
    }

    pub open spec fn spec_channels(&self) -> u16 {
        match self {
            AudioOutput::Wav(params) => params.spec.channels,
            AudioOutput::Direct(params) => params.config.channels,
        }
    }

    /// Frames per second the destination expects.
    pub fn sample_rate(&self) -> (r: u32)
        ensures
            r == self.spec_sample_rate(),
    {
        match self {
            AudioOutput::Wav(params) => params.spec.sample_rate,
            AudioOutput::Direct(params) => params.config.sample_rate,
        }
    }

    /// Samples per frame the destination expects.
    pub fn channels(&self) -> (r: u16)
        ensures
            r == self.spec_channels(),
    {
        match self {
            AudioOutput::Wav(params) => params.spec.channels,
            AudioOutput::Direct(params) => params.config.channels,
        }
    }
}

/// A file destination, with the defaults for what the caller leaves open:
/// 44,100 Hz, three seconds, two channels of 16-bit integers.
pub fn wav_output(path: String, sample_rate: Option<u32>, duration: Option<usize>) -> (r:
    WavOutput)
    ensures
        r.path == path,
        r.duration == (match duration {
            Some(d) => d,
            None => DEFAULT_DURATION,
        }),
        r.spec == (WavSpec {
            channels: DEFAULT_CHANNELS,
            sample_rate: match sample_rate {
                Some(s) => s,
                None => DEFAULT_SAMPLE_RATE,
            },
            bits_per_sample: DEFAULT_BITS_PER_SAMPLE,
            sample_format: WavSampleFormat::Int,
        }),
{
    let rate = match sample_rate {
        Some(s) => s,
        None => DEFAULT_SAMPLE_RATE,
    };
    let seconds = match duration {
        Some(d) => d,
        None => DEFAULT_DURATION,
    };
    WavOutput {
        path,
        spec: WavSpec {
            channels: DEFAULT_CHANNELS,
            sample_rate: rate,
            bits_per_sample: DEFAULT_BITS_PER_SAMPLE,
            sample_format: WavSampleFormat::Int,
        },
        duration: seconds,
    }
}

} // verus!
