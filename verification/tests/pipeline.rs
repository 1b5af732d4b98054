//! The pipeline policy: the discard pre-filter and the retry budget.

use whisp::event::{MicState, WhispEvent};
use whisp::pipeline::{
    collector_events, submit_decision, RetrySession, RetryStep, SubmitResult, TranscriptionResult,
};
use whisp::record::Recording;
use whisp::wav::{SampleFormat, WavSpec};

fn int_spec() -> WavSpec {
    WavSpec {
        channels: 1,
        sample_rate: 16000,
        bits_per_sample: 16,
        sample_format: SampleFormat::Int,
    }
}

#[test]
fn short_recordings_are_discarded_before_any_work() {
    // 500 samples at 16 kHz: 31 ms, far below the threshold
    let short = Recording::new(vec![0u8; 1000], int_spec());
    assert_eq!(submit_decision(&short, 500), SubmitResult::Discarded);
    // 50000 samples: over three seconds
    let long = Recording::new(vec![0u8; 100000], int_spec());
    assert_eq!(submit_decision(&long, 500), SubmitResult::Sent);
    // the boundary is strict: exactly the threshold is kept
    let exact = Recording::new(vec![0u8; 16000], int_spec());
    assert_eq!(submit_decision(&exact, 500), SubmitResult::Sent);
    assert_eq!(submit_decision(&exact, 501), SubmitResult::Discarded);
}

/// Runs a session against a backend stub that fails `fail_times` and then
/// succeeds; the delivered result and how often the backend ran.
fn run_stub(retries: u8, fail_times: u32, data: Vec<u8>) -> (TranscriptionResult, u32) {
    let mut session = RetrySession::new(retries, data);
    let mut failures_left = fail_times;
    let mut calls: u32 = 0;
    loop {
        calls += 1;
        let outcome: Result<String, String> = if failures_left > 0 {
            failures_left -= 1;
            Err("backend unavailable".to_string())
        } else {
            Ok("the text".to_string())
        };
        match session.on_attempt(outcome) {
            RetryStep::Retry => continue,
            RetryStep::Deliver(result) => return (result, calls),
        }
    }
}

#[test]
fn failures_within_budget_deliver_one_success() {
    let audio = vec![1u8, 2, 3, 4];
    let (result, calls) = run_stub(5, 2, audio);
    assert_eq!(result, TranscriptionResult::Success("the text".to_string()));
    assert_eq!(calls, 3);
}

#[test]
fn zero_failures_succeed_first_try() {
    let (result, calls) = run_stub(0, 0, Vec::new());
    assert_eq!(result, TranscriptionResult::Success("the text".to_string()));
    assert_eq!(calls, 1);
}

#[test]
fn exhausted_budget_delivers_one_error_with_original_bytes() {
    let audio = vec![9u8, 8, 7];
    let (result, calls) = run_stub(5, 6, audio.clone());
    // the first attempt plus the five re-attempts all ran
    assert_eq!(calls, 6);
    match result {
        TranscriptionResult::RetryError { retries, error, data } => {
            assert_eq!(retries, 5);
            assert_eq!(error, "backend unavailable");
            assert_eq!(data, audio);
        },
        TranscriptionResult::Success(_) => panic!("expected a failure report"),
    }
}

#[test]
fn collector_forwards_success_as_one_event() {
    let events = collector_events(TranscriptionResult::Success("hi".to_string()));
    assert_eq!(events, vec![WhispEvent::TranscriptReady("hi".to_string())]);
}

#[test]
fn collector_forwards_failure_as_reset_then_audio_error() {
    let events = collector_events(TranscriptionResult::RetryError {
        retries: 5,
        error: "x".to_string(),
        data: vec![1, 2],
    });
    assert_eq!(
        events,
        vec![
            WhispEvent::StateChanged(MicState::Idle),
            WhispEvent::AudioError(vec![1, 2]),
        ]
    );
}
