use std::io::Cursor;

use ape_core::bytebeats::{bytebeat_level, bytebeat_tick, BytebeatClock};
use ape_core::engine::{check_frames, render_window_i16, render_window_native, render_window_u16, window_frames, SampleRequestOptions};
use ape_core::export::ExportPlan;
use ape_core::output::{wav_output, AudioOutput, DirectOutput, PipelineError, SampleFormat, StreamSetup, WavOutput, WavSampleFormat, WavSpec};
use ape_core::params::{parameter_name, Parameter, Tag};
use ape_core::router::{route_output, Route};
use ape_core::stream::{Action, DirectSession, Event, Phase, RunState};

fn export_bytes(output: &WavOutput, mut source: impl FnMut() -> Vec<f32>) -> Result<Vec<u8>, PipelineError> {
    let mut plan = ExportPlan::new(output)?;
    let spec = hound::WavSpec {
        channels: output.spec.channels,
        sample_rate: output.spec.sample_rate,
        bits_per_sample: output.spec.bits_per_sample,
        sample_format: hound::SampleFormat::Int,
    };
    let mut cursor = Cursor::new(Vec::new());
    {
        let mut writer = hound::WavWriter::new(&mut cursor, spec).unwrap();
        while plan.next_frame() {
            let bits: Vec<u32> = source().iter().map(|x| x.to_bits()).collect();
            for s in plan.render_frame_i16(&bits)? {
                writer.write_sample(s).unwrap();
            }
        }
        writer.finalize().unwrap();
    }
    Ok(cursor.into_inner())
}

fn stereo_16(rate: u32, duration: usize) -> WavOutput {
    wav_output("out.wav".to_string(), Some(rate), Some(duration))
}

#[test]
fn one_second_of_constant_half() {
    let out = stereo_16(44_100, 1);
    let bytes = export_bytes(&out, || vec![0.5, 0.5]).unwrap();
    let reader = hound::WavReader::new(Cursor::new(bytes)).unwrap();
    assert_eq!(reader.spec().sample_rate, 44_100);
    assert_eq!(reader.spec().channels, 2);
    assert_eq!(reader.duration(), 44_100);
    let samples: Vec<i16> = reader.into_samples::<i16>().map(|s| s.unwrap()).collect();
    assert_eq!(samples.len(), 88_200);
    assert!(samples.iter().all(|&s| s == 16384));
}

#[test]
fn zero_duration_gives_header_only() {
    let out = stereo_16(44_100, 0);
    let mut calls = 0;
    let bytes = export_bytes(&out, || {
        calls += 1;
        vec![0.1, 0.2]
    })
    .unwrap();
    assert_eq!(calls, 0);
    let reader = hound::WavReader::new(Cursor::new(bytes)).unwrap();
    assert_eq!(reader.duration(), 0);
    assert_eq!(reader.len(), 0);
}

#[test]
fn frame_count_is_duration_times_rate() {
    let out = stereo_16(8_000, 3);
    let plan = ExportPlan::new(&out).unwrap();
    assert_eq!(plan.total_frames(), 24_000);
    let mut calls = 0u64;
    let bytes = export_bytes(&out, || {
        calls += 1;
        vec![0.0, 0.0]
    })
    .unwrap();
    assert_eq!(calls, 24_000);
    let reader = hound::WavReader::new(Cursor::new(bytes)).unwrap();
    assert_eq!(reader.duration(), 24_000);
    assert_eq!(reader.len(), 48_000);
}

#[test]
fn identical_runs_are_byte_identical() {
    let out = stereo_16(11_025, 1);
    let make_source = || {
        let mut phase: u32 = 0;
        move || {
            phase = phase.wrapping_mul(1_103_515_245).wrapping_add(12_345);
            let v = (phase >> 16) as f32 / 32768.0 - 1.0;
            vec![v, -v]
        }
    };
    let a = export_bytes(&out, make_source()).unwrap();
    let b = export_bytes(&out, make_source()).unwrap();
    assert_eq!(a, b);
}

#[test]
fn mismatched_frame_is_reported_in_export() {
    let out = stereo_16(100, 1);
    let r = export_bytes(&out, || vec![0.5]);
    assert_eq!(r, Err(PipelineError::FrameLengthMismatch { expected: 2, found: 1 }));
    let r = export_bytes(&out, || vec![0.5, 0.5, 0.5]);
    assert_eq!(r, Err(PipelineError::FrameLengthMismatch { expected: 2, found: 3 }));
}

#[test]
fn plan_counts_down() {
    let mut plan = ExportPlan::new(&stereo_16(2, 1)).unwrap();
    assert_eq!(plan.remaining(), 2);
    assert!(plan.next_frame());
    assert!(plan.next_frame());
    assert!(!plan.next_frame());
    assert!(!plan.next_frame());
    assert_eq!(plan.written(), 2);
    assert_eq!(plan.remaining(), 0);
    assert_eq!(plan.channels(), 2);
    assert_eq!(plan.format(), SampleFormat::I16);
}

#[test]
fn unsupported_file_formats() {
    let mut out = stereo_16(44_100, 1);
    out.spec.bits_per_sample = 24;
    assert!(matches!(ExportPlan::new(&out), Err(PipelineError::UnsupportedSampleFormat)));
    out.spec.sample_format = WavSampleFormat::Float;
    assert!(matches!(ExportPlan::new(&out), Err(PipelineError::UnsupportedSampleFormat)));
    out.spec.bits_per_sample = 32;
    assert_eq!(ExportPlan::new(&out).unwrap().format(), SampleFormat::F32);
}

#[test]
fn huge_duration_is_reported() {
    let out = wav_output("x.wav".to_string(), Some(u32::MAX), Some(usize::MAX));
    assert!(matches!(ExportPlan::new(&out), Err(PipelineError::DurationTooLong)));
}

#[test]
fn defaults_of_a_file_destination() {
    let out = wav_output("a.wav".to_string(), None, None);
    assert_eq!(out.path, "a.wav");
    assert_eq!(out.duration, 3);
    assert_eq!(
        out.spec,
        WavSpec { channels: 2, sample_rate: 44_100, bits_per_sample: 16, sample_format: WavSampleFormat::Int }
    );
    let out = wav_output("b.wav".to_string(), Some(48_000), Some(7));
    assert_eq!(out.spec.sample_rate, 48_000);
    assert_eq!(out.duration, 7);
}

#[test]
fn sample_rate_of_both_variants() {
    let wav = AudioOutput::Wav(stereo_16(22_050, 1));
    assert_eq!(wav.sample_rate(), 22_050);
    assert_eq!(wav.channels(), 2);
    let direct = AudioOutput::Direct(DirectOutput {
        config: StreamSetup { channels: 1, sample_rate: 48_000, sample_format: SampleFormat::F32 },
    });
    assert_eq!(direct.sample_rate(), 48_000);
    assert_eq!(direct.channels(), 1);
}

#[test]
fn router_takes_exactly_one_path() {
    match route_output(&AudioOutput::Wav(stereo_16(10, 2))).unwrap() {
        Route::Export(plan) => assert_eq!(plan.total_frames(), 20),
        Route::Device(_) => panic!("file destination routed to the device"),
    }
    let setup = StreamSetup { channels: 2, sample_rate: 44_100, sample_format: SampleFormat::I16 };
    match route_output(&AudioOutput::Direct(DirectOutput { config: setup })).unwrap() {
        Route::Device(c) => assert_eq!(c, setup),
        Route::Export(_) => panic!("device destination routed to a file"),
    }
    let mut bad = stereo_16(10, 2);
    bad.spec.bits_per_sample = 8;
    assert!(matches!(route_output(&AudioOutput::Wav(bad)), Err(PipelineError::UnsupportedSampleFormat)));
}

#[test]
fn window_is_filled_frame_by_frame() {
    let mut request = SampleRequestOptions::new(44_100, 2);
    let mut out = vec![7i16; 6];
    assert_eq!(window_frames(out.len(), 2), 3);
    let frames: Vec<Vec<u32>> = vec![
        vec![1.0f32.to_bits(), (-1.0f32).to_bits()],
        vec![0.5f32.to_bits(), 0.0f32.to_bits()],
        vec![2.0f32.to_bits(), (-0.5f32).to_bits()],
    ];
    render_window_i16(&mut out, &mut request, &frames).unwrap();
    assert_eq!(out, vec![32767, -32768, 16384, 0, 32767, -16384]);
    assert_eq!(request.sample_clock, 3);
    let mut out16 = vec![0u16; 6];
    render_window_u16(&mut out16, &mut request, &frames).unwrap();
    assert_eq!(out16, vec![65535, 0, 49152, 32768, 65535, 16384]);
    assert_eq!(request.sample_clock, 6);
}

#[test]
fn native_window_passes_values_through() {
    let mut request = SampleRequestOptions::new(48_000, 2);
    let mut out = vec![0.0f32; 4];
    let frames = vec![vec![0.25f32, 3.0], vec![-0.75, -2.0]];
    render_window_native(&mut out, &mut request, &frames).unwrap();
    assert_eq!(out, vec![0.25, 3.0, -0.75, -2.0]);
}

#[test]
fn short_frame_in_window_is_rejected() {
    let mut request = SampleRequestOptions::new(44_100, 2);
    let mut out = vec![5i16; 4];
    let frames: Vec<Vec<u32>> = vec![vec![0, 0], vec![0]];
    let r = render_window_i16(&mut out, &mut request, &frames);
    assert_eq!(r, Err(PipelineError::FrameLengthMismatch { expected: 2, found: 1 }));
    assert_eq!(out, vec![5, 5, 5, 5]);
    assert_eq!(request.sample_clock, 0);
    assert!(check_frames(&[vec![1u8, 2], vec![3, 4]], 2).is_ok());
}

fn drive(session: &mut DirectSession, events: &[Event]) -> Vec<Action> {
    events.iter().map(|e| session.on_event(*e)).collect()
}

#[test]
fn preset_stop_returns_at_first_poll() {
    let mut session = DirectSession::new();
    let flag = RunState::initial().request_stop();
    let actions = drive(&mut session, &[Event::Opened, Event::Played, Event::HandlerInstalled, Event::Polled(flag)]);
    assert_eq!(actions, vec![Action::Play, Action::InstallHandler, Action::Poll, Action::Succeed]);
    assert_eq!(session.phase(), Phase::Finished);
}

#[test]
fn waiting_loop_returns_on_the_poll_after_stop() {
    let mut session = DirectSession::new();
    drive(&mut session, &[Event::Opened, Event::Played, Event::HandlerInstalled]);
    for _ in 0..5 {
        assert_eq!(session.on_event(Event::Polled(RunState::from_flag(true))), Action::Poll);
    }
    assert_eq!(session.on_event(Event::Polled(RunState::from_flag(false))), Action::Succeed);
    assert_eq!(session.on_event(Event::Polled(RunState::Running)), Action::Ignore);
}

#[test]
fn stop_is_idempotent() {
    let s = RunState::initial();
    assert!(s.is_running());
    let once = s.request_stop();
    let twice = once.request_stop();
    assert_eq!(once, RunState::Stopped);
    assert_eq!(twice, RunState::Stopped);
    assert!(!twice.is_running());
}

#[test]
fn device_failures_surface() {
    let mut s = DirectSession::new();
    assert_eq!(s.on_event(Event::OpenFailed), Action::Fail(PipelineError::DeviceUnavailable));
    let mut s = DirectSession::new();
    s.on_event(Event::Opened);
    assert_eq!(s.on_event(Event::PlayFailed), Action::Fail(PipelineError::StreamStartFailure));
    let mut s = DirectSession::new();
    s.on_event(Event::Opened);
    s.on_event(Event::Played);
    assert_eq!(s.on_event(Event::HandlerFailed), Action::Fail(PipelineError::SignalHandlerInstallFailure));
    assert_eq!(s.on_event(Event::Polled(RunState::Stopped)), Action::Ignore);
}

#[test]
fn parameter_and_tag_numbering() {
    assert_eq!(Parameter::from_index(0), Some(Parameter::Modulation));
    assert_eq!(Parameter::from_index(1), None);
    assert_eq!(Parameter::Modulation.index(), 0);
    assert_eq!(Parameter::Modulation.name(), "modulation");
    assert_eq!(parameter_name(0), "modulation");
    assert_eq!(parameter_name(5), "unknown");
    assert_eq!(Tag::Freq.index(), 0);
    assert_eq!(Tag::Modulation.index(), 1);
    assert_eq!(Tag::NoteOn.index(), 2);
    assert_eq!(Tag::from_index(2), Some(Tag::NoteOn));
    assert_eq!(Tag::from_index(3), None);
}

#[test]
fn bytebeat_resampling_and_level() {
    assert_eq!(bytebeat_tick(0, 44_100), 0);
    assert_eq!(bytebeat_tick(44_100, 44_100), 8_000);
    assert_eq!(bytebeat_tick(11, 44_100), 1);
    assert_eq!(bytebeat_tick(5, 8_000), 5);
    assert_eq!(bytebeat_tick(u64::MAX, 1), u32::MAX);
    assert_eq!(bytebeat_level(0x1234), 0x34);
    assert_eq!(bytebeat_level(255), 255);
}

#[test]
fn bytebeat_clock_counts_frames() {
    let mut clock = BytebeatClock::new(16_000);
    let ticks: Vec<u32> = (0..5).map(|_| clock.next_tick()).collect();
    assert_eq!(ticks, vec![0, 0, 1, 1, 2]);
    let mut clock = BytebeatClock::new(8_000);
    let ticks: Vec<u32> = (0..3).map(|_| clock.next_tick()).collect();
    assert_eq!(ticks, vec![0, 1, 2]);
    let mut still = BytebeatClock::new(0);
    assert_eq!(still.next_tick(), 0);
    assert_eq!(still.next_tick(), u32::MAX);
    assert_eq!(bytebeat_tick(0, 0), 0);
    assert_eq!(bytebeat_tick(3, 0), u32::MAX);
}

#[test]
fn run_payload_is_frames_in_order() {
    let plan = ExportPlan::new(&stereo_16(4, 1)).unwrap();
    let frames: Vec<Vec<u32>> = vec![
        vec![0.5f32.to_bits(), (-0.5f32).to_bits()],
        vec![1.0f32.to_bits(), 0.0f32.to_bits()],
        vec![(-3.0f32).to_bits(), 0.25f32.to_bits()],
    ];
    let payload = plan.render_frames_i16(&frames).unwrap();
    assert_eq!(payload, vec![16384, -16384, 32767, 0, -32768, 8192]);
    let mut by_frame = Vec::new();
    for f in &frames {
        by_frame.extend(plan.render_frame_i16(f).unwrap());
    }
    assert_eq!(payload, by_frame);
    assert_eq!(plan.render_frames_i16(&frames).unwrap(), payload);
    assert_eq!(plan.render_frames_i16(&[]).unwrap(), Vec::<i16>::new());
    let bad = vec![vec![0u32, 0], vec![0u32, 0, 0]];
    assert_eq!(
        plan.render_frames_i16(&bad),
        Err(PipelineError::FrameLengthMismatch { expected: 2, found: 3 })
    );
}
