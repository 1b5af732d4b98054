//! The capture state machine: the one-shot voice-activity gate and the
//! idempotent finish.

use whisp::event::{AudioEvent, MicState};
use whisp::record::{
    InputConfig, Recorder, RecorderError, Recording, RecordingHandle, RecordingState,
    wav_spec_from_config,
};
use whisp::wav::{parse_wav, SampleFormat, WavSpec};

fn capture_spec() -> WavSpec {
    WavSpec {
        channels: 1,
        sample_rate: 16000,
        bits_per_sample: 32,
        sample_format: SampleFormat::Float,
    }
}

fn frame_of(samples: &[f32]) -> Vec<u8> {
    let mut out = Vec::new();
    for s in samples {
        out.extend_from_slice(&s.to_le_bytes());
    }
    out
}

#[test]
fn finish_twice_returns_data_then_none() {
    let mut handle = RecordingHandle::new(capture_spec());
    handle.write_frame(&frame_of(&[0.5, 0.25]), true);
    let first = handle.finish();
    assert!(first.is_some());
    let second = handle.finish();
    assert!(second.is_none());
}

#[test]
fn leading_silence_is_stripped_and_event_fires_once() {
    let mut handle = RecordingHandle::new(capture_spec());
    // silent frames before the edge are dropped and fire nothing
    assert_eq!(handle.write_frame(&frame_of(&[0.0, 0.0]), false), None);
    assert_eq!(handle.write_frame(&frame_of(&[0.0]), false), None);
    // the edge stores the frame and fires the one state change
    assert_eq!(
        handle.write_frame(&frame_of(&[0.5]), true),
        Some(AudioEvent::StateChanged(MicState::Active))
    );
    // later frames are stored whatever their loudness, with no new event
    assert_eq!(handle.write_frame(&frame_of(&[0.0]), false), None);
    assert_eq!(handle.write_frame(&frame_of(&[0.7]), true), None);
    let rec = handle.finish().unwrap();
    // three stored samples of four bytes behind the 44-byte header
    assert_eq!(rec.data().len(), 44 + 12);
    assert_eq!(rec.samples(), 14);
}

#[test]
fn finished_recording_parses_back() {
    let spec = capture_spec();
    let mut handle = RecordingHandle::new(spec);
    handle.write_frame(&frame_of(&[0.1, 0.2, 0.3, 0.4]), true);
    let rec = handle.finish().unwrap();
    let (parsed, off, len) = parse_wav(rec.data()).unwrap();
    assert_eq!(parsed, spec);
    assert_eq!(off, 44);
    assert_eq!(len, 16);
}

#[test]
fn observe_is_a_one_shot_edge() {
    let mut state = RecordingState::new();
    assert_eq!(state.observe(false), None);
    assert_eq!(
        state.observe(true),
        Some(AudioEvent::StateChanged(MicState::Active))
    );
    assert_eq!(state.observe(true), None);
    assert_eq!(state.observe(false), None);
    assert!(state.mic_active);
}

#[test]
fn recording_duration_math() {
    let spec = WavSpec {
        channels: 1,
        sample_rate: 16000,
        bits_per_sample: 16,
        sample_format: SampleFormat::Int,
    };
    // 8000 two-byte samples at 16 kHz is half a second
    let rec = Recording::new(vec![0u8; 16000], spec);
    assert_eq!(rec.samples(), 8000);
    assert_eq!(rec.duration_ms(), 500);
    assert!(rec.shorter_than_ms(501));
    assert!(!rec.shorter_than_ms(500));
}

#[test]
fn start_recording_decides_by_device_config() {
    let recorder = Recorder::new();
    assert_eq!(
        recorder.start_recording(None).err(),
        Some(RecorderError::NoInputDevice)
    );
    let bad = InputConfig {
        channels: 1,
        sample_rate: 48000,
        sample_size: 2,
        is_f32: false,
        format_name: "i16".to_string(),
    };
    assert!(matches!(
        recorder.start_recording(Some(bad)),
        Err(RecorderError::SampleFormatNotSupported(_))
    ));
    let good = InputConfig {
        channels: 2,
        sample_rate: 48000,
        sample_size: 4,
        is_f32: true,
        format_name: "f32".to_string(),
    };
    let handle = recorder.start_recording(Some(good));
    assert!(handle.is_ok());
}

#[test]
fn wav_spec_mirrors_device_config() {
    let config = InputConfig {
        channels: 2,
        sample_rate: 44100,
        sample_size: 4,
        is_f32: true,
        format_name: "f32".to_string(),
    };
    let spec = wav_spec_from_config(&config);
    assert_eq!(spec.channels, 2);
    assert_eq!(spec.sample_rate, 44100);
    assert_eq!(spec.bits_per_sample, 32);
    assert_eq!(spec.sample_format, SampleFormat::Float);
}
