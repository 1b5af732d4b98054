//! The transcription pipeline's policy: the discard pre-filter applied at
//! submission, the retry budget applied around the backend, and the events
//! the results collector forwards. The asynchronous plumbing (worker
//! runtime, channels) lives outside the library and drives these decisions.

use vstd::prelude::*;

use crate::event::{MicState, WhispEvent};
use crate::record::Recording;

verus! {

/// What `submit` decided for a recording.
#[derive(Clone, Copy, PartialEq, Eq, Structural, Debug)]
pub enum SubmitResult {
    /// Accepted and handed to the transcription worker.
    Sent,
    /// Dropped by the duration pre-filter before any backend work.
    Discarded,
}

/// The outcome of one submitted recording, delivered exactly once.
#[derive(Clone, PartialEq, Eq, Debug)]
pub enum TranscriptionResult {
    /// The transcribed text.
    Success(String),
    /// Every attempt failed; carries the budget that was exhausted, the
    /// last error's message, and the original audio bytes so the caller
    /// can persist or retry them externally.
    RetryError { retries: u8, error: String, data: Vec<u8> },
}

/// What the retry loop should do next after one backend attempt.
#[derive(Clone, PartialEq, Eq, Debug)]
pub enum RetryStep {
    /// Run the backend again with the same audio bytes.
    Retry,
    /// Stop and deliver this result.
    Deliver(TranscriptionResult),
}

/// One retry step, as [`RetrySession::on_attempt`] performs it: whether
/// the session delivers now, and the failure count afterwards.
pub open spec fn retry_step(retries: int, failures: int, succeeded: bool) -> (bool, int) {
    if succeeded {
        (true, failures)
    } else if failures < retries {
        (false, failures + 1)
    } else {
        (true, failures)
    }
}

/// The discard pre-filter: a recording strictly shorter than
/// `discard_ms` milliseconds is dropped before any network or inference
/// work, so no retry session is ever created for it. The comparison is
/// exact: `samples / rate < discard_ms / 1000` as rationals.
pub fn submit_decision(recording: &Recording, discard_ms: u32) -> (r: SubmitResult)
    requires
        recording.wf(),
    ensures
        r == SubmitResult::Discarded <==> recording.samples_spec() * 1000 < discard_ms
            * recording.spec_spec().sample_rate,
{
    if recording.shorter_than_ms(discard_ms) {
        SubmitResult::Discarded
    } else {
        SubmitResult::Sent
    }
}

/// One submission's retry state: how many attempts have failed, against a
/// fixed budget of `retries` re-attempts, and the original audio kept for
/// the failure report. The backend is run by the caller; each outcome is
/// fed to [`RetrySession::on_attempt`] until it delivers.
pub struct RetrySession {
    retries: u8,
    failures: u8,
    done: bool,
    data: Vec<u8>,
}

impl RetrySession {
    pub closed spec fn retries_spec(self) -> u8 {
        self.retries
    }

    pub closed spec fn failures_spec(self) -> u8 {
        self.failures
    }

    pub closed spec fn done_spec(self) -> bool {
        self.done
    }

    pub closed spec fn data_spec(self) -> Seq<u8> {
        self.data@
    }

    pub closed spec fn wf(self) -> bool {
        self.failures <= self.retries
    }

    /// Opens a session over the audio bytes with the configured budget.
    pub fn new(retries: u8, data: Vec<u8>) -> (r: RetrySession)
        ensures
            r.wf(),
            r.retries_spec() == retries,
            r.failures_spec() == 0,
            !r.done_spec(),
            r.data_spec() == data@,
    {
        RetrySession { retries, failures: 0, done: false, data }
    }

    /// Feeds one backend outcome in. A success delivers the text at once;
    /// a failure is retried while budget remains, and the last failure
    /// delivers a `RetryError` carrying the exhausted budget and the
    /// original bytes, unmodified. After a delivery the session is done
    /// and takes no further attempt.
    pub fn on_attempt(&mut self, outcome: Result<String, String>) -> (step: RetryStep)
        requires
            old(self).wf(),
            !old(self).done_spec(),
        ensures
            final(self).wf(),
            final(self).retries_spec() == old(self).retries_spec(),
            final(self).data_spec() == old(self).data_spec(),
            (step matches RetryStep::Deliver(_), final(self).failures_spec() as int) == retry_step(
                old(self).retries_spec() as int,
                old(self).failures_spec() as int,
                outcome is Ok,
            ),
            match outcome {
                Ok(text) => {
                    &&& final(self).done_spec()
                    &&& step == RetryStep::Deliver(TranscriptionResult::Success(text))
                },
                Err(e) => {
                    if old(self).failures_spec() < old(self).retries_spec() {
                        &&& !final(self).done_spec()
                        &&& final(self).failures_spec() == old(self).failures_spec() + 1
                        &&& step == RetryStep::Retry
                    } else {
                        &&& final(self).done_spec()
                        &&& step matches RetryStep::Deliver(r) && r matches
                            TranscriptionResult::RetryError { retries, error, data } && retries
                            == old(self).retries_spec() && error@ == e@ && data@ == old(
                            self,
                        ).data_spec()
                    }
                },
            },
    {
        match outcome {
            Ok(text) => {
                self.done = true;
                RetryStep::Deliver(TranscriptionResult::Success(text))
            },
            Err(e) => {
                if self.failures < self.retries {
                    self.failures = self.failures + 1;
                    RetryStep::Retry
                } else {
                    self.done = true;
                    let data = self.data.clone();
                    proof {
                        assert(data@ =~= self.data@);
                    }
                    RetryStep::Deliver(
                        TranscriptionResult::RetryError {
                            retries: self.retries,
                            error: e,
                            data,
                        },
                    )
                }
            },
        }
    }
}

/// The session run, in the abstract: with `failures` failures already
/// absorbed, against a backend whose first `n` attempts fail and whose
/// next attempt succeeds, the pair of (successes delivered, failure
/// reports delivered) the session ends with. Each step is one
/// [`retry_step`]; the attempt succeeds exactly when the stub's `n`
/// failures are spent.
pub open spec fn run_session(retries: nat, failures: nat, n: nat) -> (nat, nat)
    decreases retries - failures,
{
    let succeeded = failures >= n;
    let step = retry_step(retries as int, failures as int, succeeded);
    if !step.0 {
        run_session(retries, step.1 as nat, n)
    } else if succeeded {
        (1nat, 0nat)
    } else {
        (0nat, 1nat)
    }
}

/// The retry budget law: against a backend that fails `n` times and then
/// succeeds, a fresh session with budget `retries` delivers exactly one
/// success when `n <= retries`, and exactly one failure report when
/// `n > retries`; either way exactly one result is delivered.
pub proof fn lemma_retry_budget(retries: nat, n: nat)
    ensures
        n <= retries ==> run_session(retries, 0, n) == (1nat, 0nat),
        n > retries ==> run_session(retries, 0, n) == (0nat, 1nat),
{
    lemma_run_session_from(retries, 0, n);
}

proof fn lemma_run_session_from(retries: nat, failures: nat, n: nat)
    requires
        failures <= retries,
        failures <= n,
    ensures
        n <= retries ==> run_session(retries, failures, n) == (1nat, 0nat),
        n > retries ==> run_session(retries, failures, n) == (0nat, 1nat),
    decreases retries - failures,
{
    if failures < n {
        if failures >= retries {
        } else {
            lemma_run_session_from(retries, (failures + 1) as nat, n);
        }
    }
}

/// The events the results collector forwards for one finished job: the
/// text on success; on exhausted retries, a state reset to idle followed
/// by the audio-error event carrying the original bytes.
pub fn collector_events(result: TranscriptionResult) -> (events: Vec<WhispEvent>)
    ensures
        match result {
            TranscriptionResult::Success(text) => events@ == seq![
                WhispEvent::TranscriptReady(text),
            ],
            TranscriptionResult::RetryError { retries, error, data } => events@ == seq![
                WhispEvent::StateChanged(MicState::Idle),
                WhispEvent::AudioError(data),
            ],
        },
{
    let mut events: Vec<WhispEvent> = Vec::new();
    match result {
        TranscriptionResult::Success(text) => {
            events.push(WhispEvent::TranscriptReady(text));
            proof {
                assert(events@ =~= seq![WhispEvent::TranscriptReady(text)]);
            }
        },
        TranscriptionResult::RetryError { retries: _, error: _, data } => {
            events.push(WhispEvent::StateChanged(MicState::Idle));
            events.push(WhispEvent::AudioError(data));
            proof {
                assert(events@ =~= seq![
                    WhispEvent::StateChanged(MicState::Idle),
                    WhispEvent::AudioError(data),
                ]);
            }
        },
    }
    events
}

} // verus!
