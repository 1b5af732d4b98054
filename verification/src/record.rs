//! The capture state machine. The audio device and its callback thread live
//! outside this library; each callback hands a frame of already-encoded
//! sample bytes and a loudness flag to [`RecordingHandle::write_frame`],
//! which applies the one-shot voice-activity gate, and the trigger release
//! calls [`RecordingHandle::finish`], which frames the container once.

use vstd::prelude::*;

use crate::event::{AudioEvent, MicState};
use crate::wav::{encode_wav, wav_header, SampleFormat, WavSpec};

verus! {

/// Why a capture could not be started.
#[derive(Clone, PartialEq, Eq, Debug)]
pub enum RecorderError {
    /// No recording device available.
    NoInputDevice,
    /// The device offers a native format this library does not capture;
    /// the payload names it. Only 32-bit float input is supported.
    SampleFormatNotSupported(String),
    /// Building the input stream failed; the payload is the device error.
    BuildStream(String),
    /// Any other failure, carried as its message.
    Other(String),
}

/// What the default input device offered: the plain facts of its native
/// configuration.
#[derive(Clone, PartialEq, Eq, Debug)]
pub struct InputConfig {
    pub channels: u16,
    pub sample_rate: u32,
    /// Size of one sample in bytes.
    pub sample_size: usize,
    /// Whether the native sample format is 32-bit float.
    pub is_f32: bool,
    /// The device's name for its format, used in error reports.
    pub format_name: String,
}

/// A finished capture: the complete container bytes plus the format they
/// were captured with. Created once by [`RecordingHandle::finish`] and
/// consumed exactly once by the pipeline.
pub struct Recording {
    data: Vec<u8>,
    spec: WavSpec,
}

impl Recording {
    pub closed spec fn data_spec(self) -> Seq<u8> {
        self.data@
    }

    pub closed spec fn spec_spec(self) -> WavSpec {
        self.spec
    }

    /// Sample count as the container length over the sample width.
    pub closed spec fn samples_spec(self) -> int {
        self.data@.len() as int / (self.spec.bits_per_sample as int / 8)
    }

    /// Duration in milliseconds, rounded down.
    pub closed spec fn duration_ms_spec(self) -> int {
        self.samples_spec() * 1000 / (self.spec.sample_rate as int)
    }

    /// Wraps existing container bytes with their format descriptor.
    pub fn new(data: Vec<u8>, spec: WavSpec) -> (r: Recording)
        requires
            spec.valid(),
            data@.len() <= 0xffff_ffff,
        ensures
            r.data_spec() == data@,
            r.spec_spec() == spec,
            r.wf(),
    {
        Recording { data, spec }
    }

    pub closed spec fn wf(self) -> bool {
        &&& self.spec.valid()
        &&& self.data@.len() <= 0xffff_ffff
    }

    /// The container bytes.
    pub fn data(&self) -> (r: &Vec<u8>)
        ensures
            r@ == self.data_spec(),
    {
        &self.data
    }

    /// The format the capture was made with.
    pub fn spec(&self) -> (r: WavSpec)
        ensures
            r == self.spec_spec(),
    {
        self.spec
    }

    /// Hands the container bytes over, consuming the recording.
    pub fn into_data(self) -> (r: Vec<u8>)
        ensures
            r@ == self.data_spec(),
    {
        self.data
    }

    /// Number of samples held, as the container length over the sample
    /// width.
    pub fn samples(&self) -> (r: usize)
        requires
            self.wf(),
        ensures
            r == self.samples_spec(),
    {
        self.data.len() / ((self.spec.bits_per_sample / 8) as usize)
    }

    /// Duration in whole milliseconds.
    pub fn duration_ms(&self) -> (r: u64)
        requires
            self.wf(),
        ensures
            r == self.duration_ms_spec(),
    {
        let samples = self.samples() as u64;
        samples * 1000 / (self.spec.sample_rate as u64)
    }

    /// True when this recording is shorter than `threshold_ms`
    /// milliseconds, compared exactly (no rounding of the duration).
    pub fn shorter_than_ms(&self, threshold_ms: u32) -> (r: bool)
        requires
            self.wf(),
        ensures
            r == (self.samples_spec() * 1000 < threshold_ms * self.spec_spec().sample_rate),
    {
        let samples = self.samples() as u64;
        let t = threshold_ms as u64;
        let rate = self.spec.sample_rate as u64;
        proof {
            assert((t as int) * (rate as int) <= 0xffff_ffff * 0xffff_ffff) by (nonlinear_arith)
                requires
                    t <= 0xffff_ffff,
                    rate <= 0xffff_ffff,
            ;
        }
        samples * 1000 < t * rate
    }
}

/// State tracked during a capture: whether the one-shot voice-activity
/// edge has fired yet.
#[derive(Clone, Copy, PartialEq, Eq, Structural, Debug)]
pub struct RecordingState {
    /// Whether the mic has received any non-silent audio yet.
    pub mic_active: bool,
}

impl RecordingState {
    pub fn new() -> (r: RecordingState)
        ensures
            !r.mic_active,
    {
        RecordingState { mic_active: false }
    }

    /// Observes one frame's loudness. The edge detector is one-shot: it
    /// arms on the first loud frame and never re-checks; the returned
    /// event fires exactly on that edge.
    pub fn observe(&mut self, loud: bool) -> (event: Option<AudioEvent>)
        ensures
            final(self).mic_active == (old(self).mic_active || loud),
            event == if !old(self).mic_active && loud {
                Some(AudioEvent::StateChanged(MicState::Active))
            } else {
                None::<AudioEvent>
            },
    {
        if !self.mic_active && loud {
            self.mic_active = true;
            Some(AudioEvent::StateChanged(MicState::Active))
        } else {
            None
        }
    }
}

/// Handle to the active capture. Frames arrive through
/// [`RecordingHandle::write_frame`]; [`RecordingHandle::finish`] frames the
/// container and is idempotent, so the drop path outside the library may
/// call it again without harm.
pub struct RecordingHandle {
    spec: WavSpec,
    samples: Vec<u8>,
    state: RecordingState,
    finished: bool,
}

impl RecordingHandle {
    pub closed spec fn wf(self) -> bool {
        &&& self.spec.encodable()
        &&& self.samples@.len() + 44 <= 0xffff_ffff
    }

    pub closed spec fn spec_spec(self) -> WavSpec {
        self.spec
    }

    pub closed spec fn samples_spec(self) -> Seq<u8> {
        self.samples@
    }

    pub closed spec fn mic_active_spec(self) -> bool {
        self.state.mic_active
    }

    pub closed spec fn finished_spec(self) -> bool {
        self.finished
    }

    /// Opens a fresh capture in the given format.
    pub fn new(spec: WavSpec) -> (r: RecordingHandle)
        requires
            spec.encodable(),
        ensures
            r.wf(),
            r.spec_spec() == spec,
            r.samples_spec() == Seq::<u8>::empty(),
            !r.mic_active_spec(),
            !r.finished_spec(),
    {
        RecordingHandle { spec, samples: Vec::new(), state: RecordingState::new(), finished: false }
    }

    /// True once [`RecordingHandle::finish`] has run.
    pub fn is_finished(&self) -> (r: bool)
        ensures
            r == self.finished_spec(),
    {
        self.finished
    }

    /// How many sample bytes are stored so far.
    pub fn stored_len(&self) -> (r: usize)
        ensures
            r == self.samples_spec().len(),
    {
        self.samples.len()
    }

    /// Takes one device-callback frame of encoded sample bytes together
    /// with its loudness. Until the first loud frame nothing is stored, so
    /// the capture strips its leading silence; from the edge on, every
    /// frame is appended. The returned event fires at most once per
    /// capture, on the edge.
    pub fn write_frame(&mut self, frame: &Vec<u8>, loud: bool) -> (event: Option<AudioEvent>)
        requires
            old(self).wf(),
            !old(self).finished_spec(),
            old(self).samples_spec().len() + frame@.len() + 44 <= 0xffff_ffff,
        ensures
            final(self).wf(),
            final(self).spec_spec() == old(self).spec_spec(),
            !final(self).finished_spec(),
            final(self).mic_active_spec() == (old(self).mic_active_spec() || loud),
            final(self).samples_spec() == if old(self).mic_active_spec() || loud {
                old(self).samples_spec() + frame@
            } else {
                old(self).samples_spec()
            },
            event == if !old(self).mic_active_spec() && loud {
                Some(AudioEvent::StateChanged(MicState::Active))
            } else {
                None::<AudioEvent>
            },
            (
                final(self).samples_spec(),
                final(self).mic_active_spec(),
                event is Some,
            ) == capture_step(old(self).samples_spec(), old(self).mic_active_spec(), frame@, loud),
    {
        let event = self.state.observe(loud);
        if self.state.mic_active {
            let mut i: usize = 0;
            let n = frame.len();
            while i < n
                invariant
                    i <= n,
                    n == frame@.len(),
                    self.samples@ == old(self).samples@ + frame@.subrange(0, i as int),
                    self.spec == old(self).spec,
                    self.finished == old(self).finished,
                    self.state.mic_active == (old(self).state.mic_active || loud),
                decreases n - i,
            {
                self.samples.push(frame[i]);
                i = i + 1;
            }
            proof {
                assert(frame@.subrange(0, frame@.len() as int) =~= frame@);
            }
        }
        event
    }

    /// Ends the capture and frames the container. The first call returns
    /// the finished recording; any later call returns `None` and changes
    /// nothing.
    pub fn finish(&mut self) -> (r: Option<Recording>)
        requires
            old(self).wf(),
        ensures
            final(self).wf(),
            old(self).finished_spec() ==> r is None && *final(self) == *old(self),
            !old(self).finished_spec() ==> {
                &&& final(self).finished_spec()
                &&& r matches Some(rec) && rec.spec_spec() == old(self).spec_spec()
                    && rec.data_spec() == wav_header(
                    old(self).spec_spec(),
                    old(self).samples_spec().len() as int,
                ) + old(self).samples_spec() && rec.wf()
            },
    {
        if self.finished {
            return None;
        }
        self.finished = true;
        let data = encode_wav(&self.spec, &self.samples);
        proof {
            vstd::bytes::lemma_auto_spec_u16_to_from_le_bytes();
            vstd::bytes::lemma_auto_spec_u32_to_from_le_bytes();
            assert(wav_header(self.spec, self.samples@.len() as int).len() == 44);
        }
        Some(Recording { data, spec: self.spec })
    }
}

/// One capture step, as [`RecordingHandle::write_frame`] performs it: the
/// stored bytes and the active flag afterwards, and whether the event
/// fired.
pub open spec fn capture_step(stored: Seq<u8>, active: bool, frame: Seq<u8>, loud: bool) -> (
    Seq<u8>,
    bool,
    bool,
) {
    (
        if active || loud {
            stored + frame
        } else {
            stored
        },
        active || loud,
        !active && loud,
    )
}

/// A whole capture run over a sequence of frames, each with its loudness:
/// the stored bytes and active flag at the end, and how many events
/// fired along the way.
pub open spec fn run_capture(stored: Seq<u8>, active: bool, frames: Seq<(Seq<u8>, bool)>) -> (
    Seq<u8>,
    bool,
    int,
)
    decreases frames.len(),
{
    if frames.len() == 0 {
        (stored, active, 0)
    } else {
        let step = capture_step(stored, active, frames[0].0, frames[0].1);
        let rest = run_capture(step.0, step.1, frames.drop_first());
        (
            rest.0,
            rest.1,
            rest.2 + if step.2 {
                1int
            } else {
                0int
            },
        )
    }
}

/// The bytes of all the frames, in order.
pub open spec fn concat_frames(frames: Seq<(Seq<u8>, bool)>) -> Seq<u8>
    decreases frames.len(),
{
    if frames.len() == 0 {
        Seq::<u8>::empty()
    } else {
        frames[0].0 + concat_frames(frames.drop_first())
    }
}

/// The bytes from the first loud frame on: what a capture keeps.
pub open spec fn strip_leading_silence(frames: Seq<(Seq<u8>, bool)>) -> Seq<u8>
    decreases frames.len(),
{
    if frames.len() == 0 {
        Seq::<u8>::empty()
    } else if frames[0].1 {
        concat_frames(frames)
    } else {
        strip_leading_silence(frames.drop_first())
    }
}

/// Whether any frame is loud.
pub open spec fn any_loud(frames: Seq<(Seq<u8>, bool)>) -> bool {
    exists|i: int| 0 <= i < frames.len() && frames[i].1
}

/// Once the edge has fired, a capture keeps every following frame and
/// fires nothing further.
proof fn lemma_run_capture_active(stored: Seq<u8>, frames: Seq<(Seq<u8>, bool)>)
    ensures
        run_capture(stored, true, frames) == (stored + concat_frames(frames), true, 0int),
    decreases frames.len(),
{
    if frames.len() == 0 {
        assert(stored + concat_frames(frames) =~= stored);
    } else {
        lemma_run_capture_active(stored + frames[0].0, frames.drop_first());
        assert(stored + frames[0].0 + concat_frames(frames.drop_first()) =~= stored
            + concat_frames(frames));
    }
}

/// The voice-activity gate, over a whole capture: starting silent and
/// empty, the capture stores exactly the bytes from the first loud frame
/// on — the leading silence is stripped — and the state-change event
/// fires exactly once when any frame is loud, and never otherwise.
pub proof fn lemma_capture_strips_leading_silence(frames: Seq<(Seq<u8>, bool)>)
    ensures
        run_capture(Seq::<u8>::empty(), false, frames).0 == strip_leading_silence(frames),
        run_capture(Seq::<u8>::empty(), false, frames).2 == if any_loud(frames) {
            1int
        } else {
            0int
        },
    decreases frames.len(),
{
    if frames.len() == 0 {
    } else if frames[0].1 {
        lemma_run_capture_active(Seq::<u8>::empty() + frames[0].0, frames.drop_first());
        assert(Seq::<u8>::empty() + frames[0].0 + concat_frames(frames.drop_first())
            =~= concat_frames(frames));
    } else {
        lemma_capture_strips_leading_silence(frames.drop_first());
        assert(any_loud(frames) == any_loud(frames.drop_first())) by {
            if any_loud(frames) {
                let i = choose|i: int| 0 <= i < frames.len() && frames[i].1;
                assert(i != 0);
                assert(frames.drop_first()[i - 1].1);
            }
            if any_loud(frames.drop_first()) {
                let i = choose|i: int| 0 <= i < frames.drop_first().len()
                    && frames.drop_first()[i].1;
                assert(frames[i + 1].1);
            }
        }
    }
}

/// Builds the capture format descriptor from what the device offered.
pub fn wav_spec_from_config(config: &InputConfig) -> (r: WavSpec)
    requires
        config.sample_size <= 8,
    ensures
        r.channels == config.channels,
        r.sample_rate == config.sample_rate,
        r.bits_per_sample == config.sample_size * 8,
        r.sample_format == sample_format(config.is_f32),
{
    WavSpec {
        channels: config.channels,
        sample_rate: config.sample_rate,
        bits_per_sample: (config.sample_size * 8) as u16,
        sample_format: if config.is_f32 {
            SampleFormat::Float
        } else {
            SampleFormat::Int
        },
    }
}

/// The container sample format for a device format.
pub open spec fn sample_format(is_float: bool) -> SampleFormat {
    if is_float {
        SampleFormat::Float
    } else {
        SampleFormat::Int
    }
}

/// Starts captures. The device itself lives outside the library; the
/// caller reads the default input device's native configuration and hands
/// it in as plain values.
pub struct Recorder {}

impl Recorder {
    pub fn new() -> (r: Recorder) {
        Recorder {  }
    }

    /// Decides whether a capture may start. `config` is the default input
    /// device's native configuration, or `None` when there is no input
    /// device. Only a 32-bit float native format is accepted: any other
    /// format is a hard error, not a silent downcast; a geometry whose
    /// derived header fields cannot be represented is rejected the same
    /// way.
    pub fn start_recording(&self, config: Option<InputConfig>) -> (r: Result<
        RecordingHandle,
        RecorderError,
    >)
        ensures
            match config {
                None => r == Err::<RecordingHandle, RecorderError>(RecorderError::NoInputDevice),
                Some(c) => {
                    if c.is_f32 && c.sample_size == 4 && c.channels >= 1 && c.sample_rate >= 1
                        && (c.channels as int) * 4 <= 0xffff && (c.sample_rate as int) * ((
                    c.channels as int) * 4) <= 0xffff_ffff {
                        r matches Ok(h) && h.wf() && !h.finished_spec() && !h.mic_active_spec()
                            && h.samples_spec() == Seq::<u8>::empty() && h.spec_spec() == (WavSpec {
                            channels: c.channels,
                            sample_rate: c.sample_rate,
                            bits_per_sample: 32,
                            sample_format: SampleFormat::Float,
                        })
                    } else {
                        r matches Err(e) && e matches RecorderError::SampleFormatNotSupported(_)
                    }
                },
            },
    {
        let config = match config {
            None => {
                return Err(RecorderError::NoInputDevice);
            },
            Some(c) => c,
        };
        if !(config.is_f32 && config.sample_size == 4) {
            return Err(RecorderError::SampleFormatNotSupported(config.format_name));
        }
        if config.channels < 1 || config.sample_rate < 1 {
            return Err(RecorderError::SampleFormatNotSupported(config.format_name));
        }
        let block_align_wide: u64 = (config.channels as u64) * 4;
        if block_align_wide > 0xffff {
            return Err(RecorderError::SampleFormatNotSupported(config.format_name));
        }
        proof {
            assert((config.sample_rate as int) * (block_align_wide as int) <= 0xffff_ffff * 0xffff)
                by (nonlinear_arith)
                requires
                    config.sample_rate <= 0xffff_ffff,
                    block_align_wide <= 0xffff,
            ;
        }
        let byte_rate_wide: u64 = (config.sample_rate as u64) * block_align_wide;
        if byte_rate_wide > 0xffff_ffff {
            return Err(RecorderError::SampleFormatNotSupported(config.format_name));
        }
        let spec = wav_spec_from_config(&config);
        proof {
            assert(spec.encodable());
        }
        Ok(RecordingHandle::new(spec))
    }
}

} // verus!
