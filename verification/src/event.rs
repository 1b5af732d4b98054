//! Events the capture and transcription components emit toward the
//! caller-supplied event sink, and the microphone state they report.

use vstd::prelude::*;

verus! {

/// The current state of the microphone/recording.
#[derive(Clone, Copy, PartialEq, Eq, Structural, Debug)]
pub enum MicState {
    /// Waiting for audio input to begin (trigger pressed, mic warming up).
    Activating,
    /// Actively recording audio.
    Active,
    /// Idle, not recording.
    Idle,
    /// Processing recorded audio (transcribing).
    Processing,
}

/// Events emitted by the audio recording system. A recording emits at most
/// one state change: the one-shot edge from silence to sound.
#[derive(Clone, Copy, PartialEq, Eq, Structural, Debug)]
pub enum AudioEvent {
    /// The recording state has changed.
    StateChanged(MicState),
}

/// Events the pipeline delivers to the caller-supplied sink.
#[derive(Clone, PartialEq, Eq, Debug)]
pub enum WhispEvent {
    /// The microphone state changed.
    StateChanged(MicState),
    /// A transcription finished; the text is handed over exactly once.
    TranscriptReady(String),
    /// Every retry failed; the original audio bytes are handed back so the
    /// caller can keep them.
    AudioError(Vec<u8>),
}

} // verus!
