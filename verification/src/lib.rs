//! Verified core of a push-to-talk dictation tool: a model catalog with
//! integrity checks, a WAV capture state machine, sample-rate conversion
//! geometry, and the discard/retry policy of the transcription pipeline.

use vstd::prelude::*;

pub mod color;
pub mod config;
pub mod convert;
pub mod event;
pub mod json;
pub mod model;
pub mod notify;
pub mod pipeline;
pub mod record;
pub mod store;
pub mod transcribe;
pub mod wav;

verus! {

/// Application name, as directories and files are named after it.
pub const APP_NAME: &'static str = "whisp";

/// Application name as displayed to the user.
pub const APP_NAME_PRETTY: &'static str = "Whisp";

/// Default log level of the surrounding application.
pub const DEFAULT_LOG_LEVEL: &'static str = "info";

} // verus!
