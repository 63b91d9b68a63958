//! Voice activity detection: the hysteresis that turns per-frame speech
//! decisions into speech segments, and the assembly of segments from audio.
//!
//! The per-frame decision (a neural model's speech probability against a
//! threshold) is made by the caller; this module receives it as a `bool` per
//! 512-sample frame. Samples are of any copyable type.
use vstd::prelude::*;

verus! {

/// Silero VAD frame size: 512 samples at 16 kHz (32 ms).
pub const SILERO_FRAME_SIZE: usize = 512;

/// Silero VAD sample rate.
pub const SILERO_SAMPLE_RATE: usize = 16000;

/// Errors that can occur during VAD processing.
#[derive(Debug, Clone, PartialEq, Eq)]
pub enum VadError {
    /// The audio cannot be processed, with the reason.
    InvalidAudio(String),
    /// The configuration is unusable, with the reason.
    ConfigError(String),
    /// The model failed, with the reason.
    ModelError(String),
}

impl VadError {
    /// The error's message.
    pub fn message(&self) -> (r: String)
        ensures
            r@ == match *self {
                VadError::InvalidAudio(m) => "Invalid audio data: "@ + m@,
                VadError::ConfigError(m) => "VAD configuration error: "@ + m@,
                VadError::ModelError(m) => "VAD model error: "@ + m@,
            },
    {
        match self {
            VadError::InvalidAudio(m) => crate::text::concat_str("Invalid audio data: ", m.as_str()),
            VadError::ConfigError(m) => crate::text::concat_str("VAD configuration error: ", m.as_str()),
            VadError::ModelError(m) => crate::text::concat_str("VAD model error: ", m.as_str()),
        }
    }
}

/// Voice activity detection result for a frame.
#[derive(Debug, Clone, Copy, PartialEq, Eq, Structural)]
pub enum VadResult {
    /// Speech detected in the audio frame.
    Speech,
    /// Silence detected in the audio frame.
    Silence,
}

/// Milliseconds covered by one frame at `sample_rate`.
pub open spec fn frame_ms(sample_rate: usize) -> u64 {
    ((SILERO_FRAME_SIZE as int * 1000) / (sample_rate as int)) as u64
}

/// The hysteresis counters: consecutive speech frames (kept through short
/// pauses once speech is confirmed), consecutive silence frames, and
/// whether speech is confirmed.
pub struct HysteresisState {
    pub speech_frames: nat,
    pub silence_frames: nat,
    pub in_speech: bool,
}

/// One frame of the hysteresis: counters move, then speech is confirmed
/// once it has lasted `min_speech_ms`, and ended once silence has lasted
/// `max_silence_ms` (which clears both counters).
pub open spec fn hysteresis_step(
    st: HysteresisState,
    is_speech: bool,
    ms: int,
    min_speech_ms: int,
    max_silence_ms: int,
) -> (HysteresisState, VadResult) {
    let speech = if is_speech { st.speech_frames + 1 } else if !st.in_speech { 0 } else { st.speech_frames };
    let silence = if is_speech { 0 } else { st.silence_frames + 1 };
    if !st.in_speech {
        if speech * ms >= min_speech_ms {
            (HysteresisState { speech_frames: speech as nat, silence_frames: silence as nat, in_speech: true }, VadResult::Speech)
        } else {
            (HysteresisState { speech_frames: speech as nat, silence_frames: silence as nat, in_speech: false }, VadResult::Silence)
        }
    } else if silence * ms >= max_silence_ms {
        (HysteresisState { speech_frames: 0, silence_frames: 0, in_speech: false }, VadResult::Silence)
    } else {
        (HysteresisState { speech_frames: speech as nat, silence_frames: silence as nat, in_speech: true }, VadResult::Speech)
    }
}

/// Speech-start and speech-end hysteresis over per-frame decisions.
pub struct Hysteresis {
    speech_frames: u64,
    silence_frames: u64,
    in_speech: bool,
    ms_per_frame: u64,
    min_speech_duration_ms: u64,
    max_silence_duration_ms: u64,
}

/// A frame count large enough that no stream reaches it (2^40 frames of
/// 32 ms is over a thousand years); counters stop there.
pub const FRAME_COUNT_CAP: u64 = 0x100_0000_0000;

impl Hysteresis {
    /// The counters.
    pub closed spec fn state(&self) -> HysteresisState {
        HysteresisState {
            speech_frames: self.speech_frames as nat,
            silence_frames: self.silence_frames as nat,
            in_speech: self.in_speech,
        }
    }

    /// Milliseconds per frame.
    pub closed spec fn ms(&self) -> u64 {
        self.ms_per_frame
    }

    /// Speech must last this long to be confirmed.
    pub closed spec fn min_speech_ms(&self) -> u64 {
        self.min_speech_duration_ms
    }

    /// Silence must last this long to end confirmed speech.
    pub closed spec fn max_silence_ms(&self) -> u64 {
        self.max_silence_duration_ms
    }

    /// The counters stay within the cap, and a frame lasts at most a second.
    pub closed spec fn wf(&self) -> bool {
        &&& self.speech_frames <= FRAME_COUNT_CAP
        &&& self.silence_frames <= FRAME_COUNT_CAP
        &&& self.ms_per_frame <= 1000 * SILERO_FRAME_SIZE
    }

    /// A hysteresis at rest for frames of 512 samples at `sample_rate`.
    pub fn new(sample_rate: usize, min_speech_duration_ms: u64, max_silence_duration_ms: u64) -> (r: Self)
        requires
            sample_rate > 0,
        ensures
            r.wf(),
            r.state() == (HysteresisState { speech_frames: 0, silence_frames: 0, in_speech: false }),
            r.ms() == frame_ms(sample_rate),
            r.min_speech_ms() == min_speech_duration_ms,
            r.max_silence_ms() == max_silence_duration_ms,
    {
        let ms: usize = (SILERO_FRAME_SIZE * 1000) / sample_rate;
        Hysteresis {
            speech_frames: 0,
            silence_frames: 0,
            in_speech: false,
            ms_per_frame: ms as u64,
            min_speech_duration_ms,
            max_silence_duration_ms,
        }
    }

    /// Feeds one frame's decision and reports whether the stream is in
    /// speech after it.
    pub fn step(&mut self, is_speech: bool) -> (r: VadResult)
        requires
            old(self).wf(),
            old(self).state().speech_frames < FRAME_COUNT_CAP,
            old(self).state().silence_frames < FRAME_COUNT_CAP,
        ensures
            final(self).wf(),
            (final(self).state(), r) == hysteresis_step(
                old(self).state(),
                is_speech,
                old(self).ms() as int,
                old(self).min_speech_ms() as int,
                old(self).max_silence_ms() as int,
            ),
            final(self).ms() == old(self).ms(),
            final(self).min_speech_ms() == old(self).min_speech_ms(),
            final(self).max_silence_ms() == old(self).max_silence_ms(),
    {
        if is_speech {
            self.speech_frames = self.speech_frames + 1;
            self.silence_frames = 0;
        } else {
            self.silence_frames = self.silence_frames + 1;
            if !self.in_speech {
                self.speech_frames = 0;
            }
        }
        assert(self.speech_frames * self.ms_per_frame <= FRAME_COUNT_CAP * (1000 * SILERO_FRAME_SIZE))
            by (nonlinear_arith)
            requires
                self.speech_frames <= FRAME_COUNT_CAP,
                self.ms_per_frame <= 1000 * SILERO_FRAME_SIZE,
        ;
        assert(self.silence_frames * self.ms_per_frame <= FRAME_COUNT_CAP * (1000 * SILERO_FRAME_SIZE))
            by (nonlinear_arith)
            requires
                self.silence_frames <= FRAME_COUNT_CAP,
                self.ms_per_frame <= 1000 * SILERO_FRAME_SIZE,
        ;
        let speech_duration_ms = self.speech_frames * self.ms_per_frame;
        let silence_duration_ms = self.silence_frames * self.ms_per_frame;
        if !self.in_speech {
            if speech_duration_ms >= self.min_speech_duration_ms {
                self.in_speech = true;
                VadResult::Speech
            } else {
                VadResult::Silence
            }
        } else if silence_duration_ms >= self.max_silence_duration_ms {
            self.in_speech = false;
            self.speech_frames = 0;
            self.silence_frames = 0;
            VadResult::Silence
        } else {
            VadResult::Speech
        }
    }

    /// Whether the counters can take another frame.
    pub fn can_step(&self) -> (r: bool)
        ensures
            r == (self.state().speech_frames < FRAME_COUNT_CAP && self.state().silence_frames
                < FRAME_COUNT_CAP),
    {
        self.speech_frames < FRAME_COUNT_CAP && self.silence_frames < FRAME_COUNT_CAP
    }

    /// Consecutive frames of speech counted so far (the candidate frames
    /// of a start not yet confirmed).
    pub fn speech_frames(&self) -> (r: u64)
        ensures
            r == self.state().speech_frames,
    {
        self.speech_frames
    }

    /// Whether speech is confirmed.
    pub fn is_speaking(&self) -> (r: bool)
        ensures
            r == self.state().in_speech,
    {
        self.in_speech
    }

    /// Whether speech frames are accumulating but not yet confirmed.
    pub fn is_probably_speaking(&self) -> (r: bool)
        ensures
            r == (!self.state().in_speech && self.state().speech_frames > 0),
    {
        !self.in_speech && self.speech_frames > 0
    }

    /// Clears the counters.
    pub fn reset(&mut self)
        requires
            old(self).wf(),
        ensures
            final(self).wf(),
            final(self).state() == (HysteresisState { speech_frames: 0, silence_frames: 0, in_speech: false }),
            final(self).ms() == old(self).ms(),
            final(self).min_speech_ms() == old(self).min_speech_ms(),
            final(self).max_silence_ms() == old(self).max_silence_ms(),
    {
        self.speech_frames = 0;
        self.silence_frames = 0;
        self.in_speech = false;
    }
}

/// Hysteresis laws: outside speech, a frame is reported as speech only once
/// speech has lasted the minimum; inside speech, a frame is reported as
/// silence only once silence has lasted the maximum; and a silence frame
/// outside speech clears the speech count.
pub proof fn law_hysteresis(
    st: HysteresisState,
    is_speech: bool,
    ms: int,
    min_speech_ms: int,
    max_silence_ms: int,
)
    requires
        ms >= 0,
        min_speech_ms > 0,
        max_silence_ms > 0,
    ensures
        ({
            let (next, r) = hysteresis_step(st, is_speech, ms, min_speech_ms, max_silence_ms);
            &&& (!st.in_speech && r == VadResult::Speech) ==> next.speech_frames * ms >= min_speech_ms
            &&& (!st.in_speech && r == VadResult::Speech) ==> is_speech
            &&& (st.in_speech && r == VadResult::Silence) ==> !is_speech && (st.silence_frames + 1) * ms
                >= max_silence_ms
            &&& (!st.in_speech && !is_speech) ==> r == VadResult::Silence
                && next.speech_frames == 0
            &&& (r == VadResult::Speech) == next.in_speech
        }),
{
}

/// What each frame decides: outside speech, a speech frame confirms speech
/// exactly when the run of speech frames it ends reaches `min_speech_ms`,
/// and a silent frame never does; inside speech, a speech frame keeps
/// speech, and a silent frame ends it exactly when the run of silent frames
/// it ends reaches `max_silence_ms`.
pub proof fn law_hysteresis_decides(
    st: HysteresisState,
    is_speech: bool,
    ms: int,
    min_speech_ms: int,
    max_silence_ms: int,
)
    requires
        ms >= 0,
        min_speech_ms > 0,
        max_silence_ms > 0,
    ensures
        ({
            let (next, r) = hysteresis_step(st, is_speech, ms, min_speech_ms, max_silence_ms);
            &&& !st.in_speech && is_speech ==> (r == VadResult::Speech <==> (st.speech_frames + 1) * ms
                >= min_speech_ms)
            &&& !st.in_speech && !is_speech ==> r == VadResult::Silence
            &&& st.in_speech && is_speech ==> r == VadResult::Speech && next.silence_frames == 0
            &&& st.in_speech && !is_speech ==> (r == VadResult::Silence <==> (st.silence_frames + 1) * ms
                >= max_silence_ms)
            &&& is_speech ==> next.silence_frames == 0
        }),
{
}

/// The counters after running the hysteresis over the per-frame decisions
/// `ds`, in order, from `st`.
pub open spec fn hysteresis_run(
    st: HysteresisState,
    ds: Seq<bool>,
    ms: int,
    min_speech_ms: int,
    max_silence_ms: int,
) -> HysteresisState
    decreases ds.len(),
{
    if ds.len() == 0 {
        st
    } else {
        hysteresis_step(hysteresis_run(st, ds.drop_last(), ms, min_speech_ms, max_silence_ms), ds.last(), ms,
            min_speech_ms, max_silence_ms).0
    }
}

/// The number of silent decisions at the end of `ds` (since the last
/// speech decision).
pub open spec fn trailing_silence(ds: Seq<bool>) -> nat
    decreases ds.len(),
{
    if ds.len() == 0 {
        0
    } else if ds.last() {
        0
    } else {
        trailing_silence(ds.drop_last()) + 1
    }
}

/// Silence is counted in consecutive frames: a speech frame clears the
/// count, so from a state with no silence counted, the count never exceeds
/// the silent frames since the last speech frame. Hence confirmed speech
/// ends only after `max_silence_ms` of uninterrupted silence: when a
/// decision `d` after `ds` ends it, the last `(max_silence_ms + ms - 1) / ms`
/// decisions (`d` included) were all silent, however long the pauses
/// between earlier speech frames.
pub proof fn law_silence_is_consecutive(
    st: HysteresisState,
    ds: Seq<bool>,
    d: bool,
    ms: int,
    min_speech_ms: int,
    max_silence_ms: int,
)
    requires
        st.silence_frames == 0,
        ms > 0,
        max_silence_ms > 0,
    ensures
        hysteresis_run(st, ds, ms, min_speech_ms, max_silence_ms).silence_frames <= trailing_silence(ds),
        d ==> hysteresis_step(hysteresis_run(st, ds, ms, min_speech_ms, max_silence_ms), d, ms, min_speech_ms,
            max_silence_ms).0.silence_frames == 0,
        ({
            let prev = hysteresis_run(st, ds, ms, min_speech_ms, max_silence_ms);
            let (next, r) = hysteresis_step(prev, d, ms, min_speech_ms, max_silence_ms);
            prev.in_speech && r == VadResult::Silence ==> !d && trailing_silence(ds.push(d)) * ms
                >= max_silence_ms
        }),
    decreases ds.len(),
{
    if ds.len() > 0 {
        law_silence_is_consecutive(st, ds.drop_last(), ds.last(), ms, min_speech_ms, max_silence_ms);
    }
    let prev = hysteresis_run(st, ds, ms, min_speech_ms, max_silence_ms);
    let (next, r) = hysteresis_step(prev, d, ms, min_speech_ms, max_silence_ms);
    assert(ds.push(d).drop_last() =~= ds);
    if prev.in_speech && r == VadResult::Silence {
        let k = prev.silence_frames + 1;
        let tr = trailing_silence(ds.push(d));
        assert(k <= tr);
        assert(k * ms <= tr * ms) by (nonlinear_arith)
            requires
                k <= tr,
                ms > 0,
        ;
    }
}

/// A detected speech segment.
#[derive(Debug, Clone)]
pub struct SpeechSegment<T> {
    /// Start time in milliseconds.
    pub start_ms: u64,
    /// End time in milliseconds.
    pub end_ms: u64,
    /// Audio samples of the segment.
    pub samples: Vec<T>,
}

/// `buf` after pushing `x` into a ring of capacity `cap`: when full, the
/// oldest sample leaves first (an empty ring just takes the sample).
pub open spec fn ring_push<T>(buf: Seq<T>, x: T, cap: nat) -> Seq<T> {
    if buf.len() >= cap {
        if buf.len() > 0 { buf.drop_first().push(x) } else { buf.push(x) }
    } else {
        buf.push(x)
    }
}

/// `buf` after pushing each of `xs` in turn.
pub open spec fn ring_push_all<T>(buf: Seq<T>, xs: Seq<T>, cap: nat) -> Seq<T>
    decreases xs.len(),
{
    if xs.len() == 0 {
        buf
    } else {
        ring_push(ring_push_all(buf, xs.drop_last(), cap), xs.last(), cap)
    }
}

/// The samples of a run of frames, one after another.
pub open spec fn joined_frames<T>(fs: Seq<Vec<T>>) -> Seq<T>
    decreases fs.len(),
{
    if fs.len() == 0 {
        Seq::empty()
    } else {
        joined_frames(fs.drop_last()) + fs.last()@
    }
}

/// Whether frame `k` of a run of decisions completes a segment: it is
/// silence, and a segment was in progress before it (from an earlier
/// speech frame of the run, or, for the first frame, from before the run).
pub open spec fn completes_at(in_progress: bool, results: Seq<VadResult>, k: int) -> bool {
    &&& results[k] == VadResult::Silence
    &&& if k == 0 {
        in_progress
    } else {
        results[k - 1] == VadResult::Speech
    }
}

/// `a + b`, saturating at `u64::MAX`.
pub open spec fn saturating_ms(a: int, b: int) -> int {
    if a + b > u64::MAX {
        u64::MAX as int
    } else {
        a + b
    }
}

/// Cuts audio into frames and assembles speech segments from the frames'
/// decisions, prepending the audio heard just before speech started.
pub struct SegmentAssembler<T> {
    sample_rate: usize,
    current_segment: Option<Vec<T>>,
    segment_start_ms: u64,
    total_processed_ms: u64,
    reframe_buffer: Vec<T>,
    pre_speech_buffer: Vec<T>,
    pre_speech_buffer_capacity: usize,
}

impl<T: Copy> SegmentAssembler<T> {
    /// Samples not yet cut into a frame.
    pub closed spec fn pending(&self) -> Seq<T> {
        self.reframe_buffer@
    }

    /// The replay buffer of audio heard during silence.
    pub closed spec fn replay(&self) -> Seq<T> {
        self.pre_speech_buffer@
    }

    /// The replay buffer's capacity in samples.
    pub closed spec fn replay_capacity(&self) -> nat {
        self.pre_speech_buffer_capacity as nat
    }

    /// The segment being assembled, if speech is in progress.
    pub closed spec fn current(&self) -> Option<Seq<T>> {
        match self.current_segment {
            Some(v) => Some(v@),
            None => None,
        }
    }

    /// Milliseconds of audio processed.
    pub closed spec fn elapsed_ms(&self) -> u64 {
        self.total_processed_ms
    }

    /// When the current segment started, in milliseconds.
    pub closed spec fn start_ms(&self) -> u64 {
        self.segment_start_ms
    }

    /// The sample rate.
    pub closed spec fn rate(&self) -> usize {
        self.sample_rate
    }

    /// Well-formedness: a positive sample rate, and the replay buffer holds
    /// at most its capacity (one sample when the capacity is zero).
    pub closed spec fn wf(&self) -> bool {
        &&& self.sample_rate > 0
        &&& self.pre_speech_buffer@.len() <= if self.pre_speech_buffer_capacity == 0 {
            1
        } else {
            self.pre_speech_buffer_capacity as int
        }
    }

    /// An assembler for `sample_rate` keeping `pre_speech_buffer_ms` of
    /// audio before speech.
    pub fn new(sample_rate: usize, pre_speech_buffer_ms: u64) -> (r: Self)
        requires
            sample_rate > 0,
            pre_speech_buffer_ms * sample_rate <= usize::MAX,
        ensures
            r.wf(),
            r.rate() == sample_rate,
            r.replay_capacity() == (pre_speech_buffer_ms * sample_rate) / 1000,
            r.pending() == Seq::<T>::empty(),
            r.replay() == Seq::<T>::empty(),
            r.current() is None,
            r.elapsed_ms() == 0,
    {
        assert(pre_speech_buffer_ms <= pre_speech_buffer_ms * sample_rate) by (nonlinear_arith)
            requires sample_rate > 0;
        let product: usize = (pre_speech_buffer_ms as usize) * sample_rate;
        SegmentAssembler {
            sample_rate,
            current_segment: None,
            segment_start_ms: 0,
            total_processed_ms: 0,
            reframe_buffer: Vec::new(),
            pre_speech_buffer: Vec::new(),
            pre_speech_buffer_capacity: product / 1000,
        }
    }

    /// Number of samples waiting to form a frame.
    pub fn pending_len(&self) -> (r: usize)
        ensures
            r == self.pending().len(),
    {
        self.reframe_buffer.len()
    }

    /// Number of samples in the replay buffer.
    pub fn replay_len(&self) -> (r: usize)
        ensures
            r == self.replay().len(),
    {
        self.pre_speech_buffer.len()
    }

    /// The replay buffer's capacity in samples.
    pub fn replay_capacity_samples(&self) -> (r: usize)
        ensures
            r == self.replay_capacity(),
    {
        self.pre_speech_buffer_capacity
    }

    /// Milliseconds of audio processed.
    pub fn processed_ms(&self) -> (r: u64)
        ensures
            r == self.elapsed_ms(),
    {
        self.total_processed_ms
    }

    /// Whether a segment is being assembled.
    pub fn in_segment(&self) -> (r: bool)
        ensures
            r == self.current() is Some,
    {
        self.current_segment.is_some()
    }

    /// Queues incoming samples for framing.
    pub fn push_samples(&mut self, samples: &[T])
        requires
            old(self).wf(),
        ensures
            final(self).wf(),
            final(self).pending() == old(self).pending() + samples@,
            final(self).replay() == old(self).replay(),
            final(self).replay_capacity() == old(self).replay_capacity(),
            final(self).current() == old(self).current(),
            final(self).elapsed_ms() == old(self).elapsed_ms(),
            final(self).start_ms() == old(self).start_ms(),
            final(self).rate() == old(self).rate(),
    {
        let ghost before = self.reframe_buffer@;
        let mut i: usize = 0;
        while i < samples.len()
            invariant
                i <= samples.len(),
                self.reframe_buffer@ == before + samples@.take(i as int),
                self.wf(),
                self.replay() == old(self).replay(),
                self.replay_capacity() == old(self).replay_capacity(),
                self.current() == old(self).current(),
                self.elapsed_ms() == old(self).elapsed_ms(),
                self.start_ms() == old(self).start_ms(),
                self.rate() == old(self).rate(),
            decreases samples.len() - i,
        {
            self.reframe_buffer.push(samples[i]);
            i = i + 1;
            assert(self.reframe_buffer@ =~= before + samples@.take(i as int));
        }
        assert(samples@.take(samples.len() as int) =~= samples@);
    }

    /// The next full frame of queued samples, if there is one.
    pub fn next_frame(&mut self) -> (r: Option<Vec<T>>)
        requires
            old(self).wf(),
        ensures
            final(self).wf(),
            old(self).pending().len() >= SILERO_FRAME_SIZE ==> (r matches Some(f) && f@
                == old(self).pending().take(SILERO_FRAME_SIZE as int) && final(self).pending()
                == old(self).pending().skip(SILERO_FRAME_SIZE as int)),
            old(self).pending().len() < SILERO_FRAME_SIZE ==> r is None && final(self).pending()
                == old(self).pending(),
            final(self).replay() == old(self).replay(),
            final(self).replay_capacity() == old(self).replay_capacity(),
            final(self).current() == old(self).current(),
            final(self).elapsed_ms() == old(self).elapsed_ms(),
            final(self).start_ms() == old(self).start_ms(),
            final(self).rate() == old(self).rate(),
    {
        if self.reframe_buffer.len() < SILERO_FRAME_SIZE {
            return None;
        }
        let ghost old_buf = self.reframe_buffer@;
        let mut frame: Vec<T> = Vec::new();
        let mut rest: Vec<T> = Vec::new();
        let mut i: usize = 0;
        while i < self.reframe_buffer.len()
            invariant
                i <= self.reframe_buffer.len(),
                self.reframe_buffer@ == old_buf,
                old_buf.len() >= SILERO_FRAME_SIZE,
                i <= SILERO_FRAME_SIZE ==> frame@ == old_buf.take(i as int) && rest@.len() == 0,
                i > SILERO_FRAME_SIZE ==> frame@ == old_buf.take(SILERO_FRAME_SIZE as int)
                    && rest@ == old_buf.subrange(SILERO_FRAME_SIZE as int, i as int),
            decreases self.reframe_buffer.len() - i,
        {
            let x = self.reframe_buffer[i];
            if i < SILERO_FRAME_SIZE {
                frame.push(x);
                assert(frame@ =~= old_buf.take(i + 1));
            } else {
                rest.push(x);
                assert(rest@ =~= old_buf.subrange(SILERO_FRAME_SIZE as int, i + 1));
            }
            i = i + 1;
        }
        assert(rest@ =~= old_buf.skip(SILERO_FRAME_SIZE as int));
        self.reframe_buffer = rest;
        Some(frame)
    }

    /// Adds samples and cuts every whole frame out of what is pending: the
    /// frames come out in order, each `SILERO_FRAME_SIZE` samples long, and
    /// with what stays pending they are exactly the old pending samples
    /// followed by the new ones. A call with `r` samples pending and `n` new
    /// ones gives `(r + n) / SILERO_FRAME_SIZE` frames and leaves
    /// `(r + n) % SILERO_FRAME_SIZE` pending.
    pub fn take_frames(&mut self, samples: &[T]) -> (r: Vec<Vec<T>>)
        requires
            old(self).wf(),
        ensures
            old(self).frames_cut(*final(self), samples@, r@),
            final(self).wf(),
            r@.len() == (old(self).pending().len() + samples@.len()) / (SILERO_FRAME_SIZE as nat),
            final(self).pending().len() == (old(self).pending().len() + samples@.len()) % (SILERO_FRAME_SIZE as nat),
            forall|k: int| 0 <= k < r@.len() ==> (#[trigger] r@[k])@.len() == SILERO_FRAME_SIZE,
            joined_frames(r@) + final(self).pending() == old(self).pending() + samples@,
            final(self).replay() == old(self).replay(),
            final(self).replay_capacity() == old(self).replay_capacity(),
            final(self).current() == old(self).current(),
            final(self).elapsed_ms() == old(self).elapsed_ms(),
            final(self).start_ms() == old(self).start_ms(),
            final(self).rate() == old(self).rate(),
    {
        let ghost all = old(self).pending() + samples@;
        self.push_samples(samples);
        let mut frames: Vec<Vec<T>> = Vec::new();
        assert(joined_frames(frames@) =~= Seq::<T>::empty());
        assert(joined_frames(frames@) + self.pending() =~= all);
        while self.pending_len() >= SILERO_FRAME_SIZE
            invariant
                self.wf(),
                joined_frames(frames@) + self.pending() == all,
                forall|k: int| 0 <= k < frames@.len() ==> (#[trigger] frames@[k])@.len() == SILERO_FRAME_SIZE,
                self.pending().len() + SILERO_FRAME_SIZE * frames@.len() == all.len(),
                self.replay() == old(self).replay(),
                self.replay_capacity() == old(self).replay_capacity(),
                self.current() == old(self).current(),
                self.elapsed_ms() == old(self).elapsed_ms(),
                self.start_ms() == old(self).start_ms(),
                self.rate() == old(self).rate(),
            decreases self.pending().len(),
        {
            let ghost before = self.pending();
            let ghost fs = frames@;
            match self.next_frame() {
                Some(f) => {
                    proof {
                        assert(before.take(SILERO_FRAME_SIZE as int) + before.skip(SILERO_FRAME_SIZE as int) =~= before);
                    }
                    frames.push(f);
                    proof {
                        assert(frames@.drop_last() =~= fs);
                        assert(joined_frames(frames@) == joined_frames(fs) + f@);
                        assert(joined_frames(frames@) + self.pending() =~= joined_frames(fs) + before);
                    }
                },
                None => {
                    assert(false);
                },
            }
        }
        proof {
            vstd::arithmetic::div_mod::lemma_fundamental_div_mod_converse(
                all.len() as int,
                SILERO_FRAME_SIZE as int,
                frames@.len() as int,
                self.pending().len() as int,
            );
        }
        frames
    }

    fn push_replay(&mut self, frame: &Vec<T>)
        requires
            old(self).wf(),
        ensures
            final(self).wf(),
            final(self).replay() == ring_push_all(old(self).replay(), frame@, old(self).replay_capacity()),
            final(self).pending() == old(self).pending(),
            final(self).replay_capacity() == old(self).replay_capacity(),
            final(self).current() == old(self).current(),
            final(self).elapsed_ms() == old(self).elapsed_ms(),
            final(self).start_ms() == old(self).start_ms(),
            final(self).rate() == old(self).rate(),
    {
        let ghost start = self.pre_speech_buffer@;
        let mut i: usize = 0;
        while i < frame.len()
            invariant
                i <= frame.len(),
                self.wf(),
                self.pre_speech_buffer@ == ring_push_all(start, frame@.take(i as int), self.replay_capacity()),
                self.replay_capacity() == old(self).replay_capacity(),
                self.pending() == old(self).pending(),
                self.current() == old(self).current(),
                self.elapsed_ms() == old(self).elapsed_ms(),
                self.start_ms() == old(self).start_ms(),
                self.rate() == old(self).rate(),
            decreases frame.len() - i,
        {
            if self.pre_speech_buffer.len() >= self.pre_speech_buffer_capacity
                && self.pre_speech_buffer.len() > 0 {
                self.pre_speech_buffer.remove(0);
            }
            self.pre_speech_buffer.push(frame[i]);
            proof {
                let t = frame@.take(i + 1);
                assert(t.drop_last() =~= frame@.take(i as int));
                assert(t.last() == frame@[i as int]);
            }
            i = i + 1;
            assert(self.pre_speech_buffer@ =~= ring_push_all(start, frame@.take(i as int), self.replay_capacity()));
        }
        assert(frame@.take(frame.len() as int) =~= frame@);
    }

    /// Records the decision for one frame. Speech starts a segment (with the
    /// replay buffer in front) or extends it; silence ends the segment in
    /// progress, returning it, and feeds the replay buffer.
    pub fn on_frame(&mut self, frame: Vec<T>, result: VadResult) -> (r: Option<SpeechSegment<T>>)
        requires
            old(self).wf(),
        ensures
            final(self).wf(),
            final(self).pending() == old(self).pending(),
            final(self).replay_capacity() == old(self).replay_capacity(),
            final(self).rate() == old(self).rate(),
            final(self).elapsed_ms() == (if old(self).elapsed_ms() + frame_ms(old(self).rate()) > u64::MAX {
                u64::MAX as int
            } else {
                old(self).elapsed_ms() + frame_ms(old(self).rate())
            }),
            result == VadResult::Speech ==> (r is None && final(self).replay() == (if old(self).current() is None {
                Seq::<T>::empty()
            } else {
                old(self).replay()
            }) && final(self).current() == Some(
                match old(self).current() {
                    Some(seg) => seg + frame@,
                    None => old(self).replay() + frame@,
                },
            )),
            result == VadResult::Silence ==> (final(self).current() is None && final(self).replay()
                == ring_push_all(old(self).replay(), frame@, old(self).replay_capacity()) && match old(
                self,
            ).current() {
                Some(seg) => r matches Some(s) && s.samples@ == seg && s.start_ms == old(self).start_ms()
                    && s.end_ms == old(self).elapsed_ms(),
                None => r is None,
            }),
    {
        let ms_per_frame: u64 = ((SILERO_FRAME_SIZE * 1000) / self.sample_rate) as u64;
        let mut complete: Option<SpeechSegment<T>> = None;
        match result {
            VadResult::Speech => {
                if self.current_segment.is_none() {
                    let mut pre: Vec<T> = Vec::new();
                    std::mem::swap(&mut pre, &mut self.pre_speech_buffer);
                    let pre_len: u64 = pre.len() as u64;
                    let pre_ms: u64 = if pre_len <= u64::MAX / 1000 {
                        (pre_len * 1000) / (self.sample_rate as u64)
                    } else {
                        u64::MAX
                    };
                    self.segment_start_ms = self.total_processed_ms.saturating_sub(pre_ms);
                    self.current_segment = Some(pre);
                }
                let mut seg = self.current_segment.take().unwrap();
                let ghost before = seg@;
                let mut i: usize = 0;
                while i < frame.len()
                    invariant
                        i <= frame.len(),
                        seg@ == before + frame@.take(i as int),
                    decreases frame.len() - i,
                {
                    seg.push(frame[i]);
                    i = i + 1;
                    assert(seg@ =~= before + frame@.take(i as int));
                }
                assert(frame@.take(frame.len() as int) =~= frame@);
                self.current_segment = Some(seg);
            },
            VadResult::Silence => {
                match self.current_segment.take() {
                    Some(samples) => {
                        complete = Some(
                            SpeechSegment {
                                start_ms: self.segment_start_ms,
                                end_ms: self.total_processed_ms,
                                samples,
                            },
                        );
                    },
                    None => {},
                }
                self.push_replay(&frame);
            },
        }
        self.total_processed_ms = self.total_processed_ms.saturating_add(ms_per_frame);
        complete
    }

    /// What cutting `samples` into `frames` did (see [`Self::take_frames`]):
    /// the frame count and what stays pending, with everything else kept.
    pub open spec fn frames_cut(self, after: Self, samples: Seq<T>, frames: Seq<Vec<T>>) -> bool {
        &&& after.wf()
        &&& frames.len() == (self.pending().len() + samples.len()) / (SILERO_FRAME_SIZE as nat)
        &&& after.pending().len() == (self.pending().len() + samples.len()) % (SILERO_FRAME_SIZE as nat)
        &&& after.replay() == self.replay()
        &&& after.replay_capacity() == self.replay_capacity()
        &&& after.elapsed_ms() == self.elapsed_ms()
        &&& after.rate() == self.rate()
    }

    /// What recording `n` frame decisions did (see [`Self::on_frames`]): the
    /// clock advanced by one frame's milliseconds per frame (saturating),
    /// with nothing pending added and the replay buffer within its bound.
    pub open spec fn frames_recorded(self, after: Self, n: nat) -> bool {
        &&& after.wf()
        &&& after.pending() == self.pending()
        &&& after.replay_capacity() == self.replay_capacity()
        &&& after.rate() == self.rate()
        &&& after.elapsed_ms() == saturating_ms(self.elapsed_ms() as int, frame_ms(self.rate()) * n)
    }

    /// Records the decisions for a run of frames, frame by frame in order
    /// (see [`Self::on_frame`]), and gives the last segment that silence
    /// completed. A segment completes at frame `k` exactly when
    /// [`completes_at`] says so.
    pub fn on_frames(&mut self, frames: Vec<Vec<T>>, results: &[VadResult]) -> (r: Option<SpeechSegment<T>>)
        requires
            old(self).wf(),
            frames@.len() == results@.len(),
        ensures
            old(self).frames_recorded(*final(self), frames@.len()),
            final(self).current() is Some <==> (if results@.len() == 0 {
                old(self).current() is Some
            } else {
                results@.last() == VadResult::Speech
            }),
            r is Some <==> exists|k: int| 0 <= k < results@.len() && #[trigger] completes_at(
                old(self).current() is Some,
                results@,
                k,
            ),
    {
        let ghost o = *self;
        let ghost all = frames@;
        let ghost fm: int = frame_ms(self.sample_rate) as int;
        let mut frames = frames;
        let mut complete: Option<SpeechSegment<T>> = None;
        let mut i: usize = 0;
        while i < results.len()
            invariant
                i <= results@.len(),
                all.len() == results@.len(),
                frames@ == all.skip(i as int),
                self.wf(),
                self.pending() == o.pending(),
                self.replay_capacity() == o.replay_capacity(),
                self.rate() == o.rate(),
                fm == frame_ms(o.rate()) as int,
                self.elapsed_ms() == saturating_ms(o.elapsed_ms() as int, fm * i),
                self.current() is Some <==> (if i == 0 {
                    o.current() is Some
                } else {
                    results@[i - 1] == VadResult::Speech
                }),
                complete is Some <==> exists|k: int| 0 <= k < i && #[trigger] completes_at(
                    o.current() is Some,
                    results@,
                    k,
                ),
            decreases results@.len() - i,
        {
            let frame = frames.remove(0);
            let ghost before = *self;
            let done = self.on_frame(frame, results[i]);
            proof {
                assert(fm * (i + 1) == fm * i + fm) by (nonlinear_arith);
                assert(fm >= 0);
                assert(completes_at(o.current() is Some, results@, i as int) == (results@[i as int]
                    == VadResult::Silence && before.current() is Some));
            }
            if done.is_some() {
                complete = done;
            }
            i = i + 1;
            assert(frames@ =~= all.skip(i as int));
        }
        complete
    }

    /// The frames that [`Self::process`] will cut when given `samples`, in
    /// order, without cutting them: `(r + n) / SILERO_FRAME_SIZE` frames of
    /// `SILERO_FRAME_SIZE` samples each, together the start of the pending
    /// samples followed by `samples`.
    pub fn upcoming_frames(&self, samples: &[T]) -> (r: Vec<Vec<T>>)
        requires
            self.wf(),
        ensures
            r@.len() == (self.pending().len() + samples@.len()) / (SILERO_FRAME_SIZE as nat),
            forall|k: int| 0 <= k < r@.len() ==> (#[trigger] r@[k])@.len() == SILERO_FRAME_SIZE,
            joined_frames(r@) == (self.pending() + samples@).take(SILERO_FRAME_SIZE * r@.len()),
    {
        let mut pending: Vec<T> = Vec::new();
        let mut i: usize = 0;
        while i < self.reframe_buffer.len()
            invariant
                i <= self.reframe_buffer@.len(),
                pending@ == self.reframe_buffer@.take(i as int),
            decreases self.reframe_buffer@.len() - i,
        {
            pending.push(self.reframe_buffer[i]);
            i = i + 1;
            assert(pending@ =~= self.reframe_buffer@.take(i as int));
        }
        assert(pending@ =~= self.reframe_buffer@);
        let mut scratch = SegmentAssembler {
            sample_rate: self.sample_rate,
            current_segment: None,
            segment_start_ms: 0,
            total_processed_ms: 0,
            reframe_buffer: pending,
            pre_speech_buffer: Vec::new(),
            pre_speech_buffer_capacity: 0,
        };
        let frames = scratch.take_frames(samples);
        proof {
            lemma_joined_len(frames@);
            let all = self.pending() + samples@;
            assert(joined_frames(frames@) == all.take(SILERO_FRAME_SIZE * frames@.len())) by {
                assert(joined_frames(frames@) + scratch.pending() == all);
                assert(all.take(SILERO_FRAME_SIZE * frames@.len()) =~= joined_frames(frames@));
            }
        }
        frames
    }

    /// One call of the detector: adds `samples`, cuts every whole frame (the
    /// frames of [`Self::upcoming_frames`]) and records `decisions[k]` for
    /// frame `k`, giving the last segment that silence completed. With `r`
    /// samples pending and `n` new ones, `(r + n) % SILERO_FRAME_SIZE` stay
    /// pending and the clock moves on by one frame's milliseconds (32 ms at
    /// 16 kHz) for each of the `(r + n) / SILERO_FRAME_SIZE` frames, stopping
    /// at `u64::MAX`; the replay buffer stays within its capacity.
    pub fn process(&mut self, samples: &[T], decisions: &[VadResult]) -> (r: Option<SpeechSegment<T>>)
        requires
            old(self).wf(),
            decisions@.len() == (old(self).pending().len() + samples@.len()) / (SILERO_FRAME_SIZE as nat),
        ensures
            final(self).wf(),
            final(self).pending().len() == (old(self).pending().len() + samples@.len()) % (SILERO_FRAME_SIZE as nat),
            final(self).pending() == (old(self).pending() + samples@).skip(SILERO_FRAME_SIZE * decisions@.len()),
            final(self).elapsed_ms() == saturating_ms(
                old(self).elapsed_ms() as int,
                frame_ms(old(self).rate()) * decisions@.len(),
            ),
            old(self).rate() == SILERO_SAMPLE_RATE ==> final(self).elapsed_ms() == saturating_ms(
                old(self).elapsed_ms() as int,
                32 * decisions@.len() as int,
            ),
            final(self).replay().len() <= if final(self).replay_capacity() == 0 {
                1
            } else {
                final(self).replay_capacity()
            },
            final(self).replay_capacity() == old(self).replay_capacity(),
            final(self).rate() == old(self).rate(),
            r is Some <==> exists|k: int| 0 <= k < decisions@.len() && #[trigger] completes_at(
                old(self).current() is Some,
                decisions@,
                k,
            ),
    {
        let ghost a0 = *self;
        let frames = self.take_frames(samples);
        let ghost fs = frames@;
        let ghost a1 = *self;
        proof {
            lemma_joined_len(fs);
            let all = a0.pending() + samples@;
            assert(a1.pending() =~= all.skip(SILERO_FRAME_SIZE * fs.len())) by {
                assert(joined_frames(fs) + a1.pending() == all);
            }
        }
        let r = self.on_frames(frames, decisions);
        proof {
            law_detector_call(a0, samples@, fs, a1, *self);
        }
        r
    }

    /// Clears all audio and timing.
    pub fn reset(&mut self)
        requires
            old(self).wf(),
        ensures
            final(self).wf(),
            final(self).pending() == Seq::<T>::empty(),
            final(self).replay() == Seq::<T>::empty(),
            final(self).current() is None,
            final(self).elapsed_ms() == 0,
            final(self).replay_capacity() == old(self).replay_capacity(),
            final(self).rate() == old(self).rate(),
    {
        self.current_segment = None;
        self.segment_start_ms = 0;
        self.total_processed_ms = 0;
        self.reframe_buffer = Vec::new();
        self.pre_speech_buffer = Vec::new();
    }
}

/// A run of frames of `SILERO_FRAME_SIZE` samples each joins into
/// `SILERO_FRAME_SIZE` samples per frame.
proof fn lemma_joined_len<T>(fs: Seq<Vec<T>>)
    requires
        forall|k: int| 0 <= k < fs.len() ==> (#[trigger] fs[k])@.len() == SILERO_FRAME_SIZE,
    ensures
        joined_frames(fs).len() == SILERO_FRAME_SIZE * fs.len(),
    decreases fs.len(),
{
    if fs.len() > 0 {
        assert forall|k: int| 0 <= k < fs.drop_last().len() implies (#[trigger] fs.drop_last()[k])@.len()
            == SILERO_FRAME_SIZE by {
            assert(fs.drop_last()[k] == fs[k]);
        }
        lemma_joined_len(fs.drop_last());
        assert(fs.last() == fs[fs.len() - 1]);
    }
}

/// One call of the segment detector: the samples are cut into frames and a
/// decision is recorded for each frame. With `r` samples pending before the
/// call and `n` new ones, `(r + n) % 512` stay pending and the clock moves on
/// by one frame's milliseconds for each of the `(r + n) / 512` frames (32 ms
/// a frame at 16 kHz), stopping at `u64::MAX`; the replay buffer stays
/// within its capacity.
pub proof fn law_detector_call<T: Copy>(
    a0: SegmentAssembler<T>,
    samples: Seq<T>,
    frames: Seq<Vec<T>>,
    a1: SegmentAssembler<T>,
    a2: SegmentAssembler<T>,
)
    requires
        a0.wf(),
        a0.frames_cut(a1, samples, frames),
        a1.frames_recorded(a2, frames.len()),
    ensures
        a2.pending().len() == (a0.pending().len() + samples.len()) % (SILERO_FRAME_SIZE as nat),
        a2.elapsed_ms() == saturating_ms(
            a0.elapsed_ms() as int,
            frame_ms(a0.rate()) * ((a0.pending().len() + samples.len()) / (SILERO_FRAME_SIZE as nat)),
        ),
        a0.rate() == SILERO_SAMPLE_RATE ==> a2.elapsed_ms() == saturating_ms(
            a0.elapsed_ms() as int,
            32 * ((a0.pending().len() + samples.len()) / (SILERO_FRAME_SIZE as nat)) as int,
        ),
        a2.replay().len() <= if a2.replay_capacity() == 0 {
            1
        } else {
            a2.replay_capacity()
        },
        a2.replay_capacity() == a0.replay_capacity(),
{
    assert(frame_ms(SILERO_SAMPLE_RATE) == 32);
}

/// The replay ring never holds more than its capacity (one sample when the
/// capacity is zero), and what it holds is the most recent audio: a suffix
/// of the old contents followed by the pushed samples.
pub proof fn law_replay_ring<T>(buf: Seq<T>, xs: Seq<T>, cap: nat)
    requires
        buf.len() <= if cap == 0 { 1 } else { cap },
    ensures
        ring_push_all(buf, xs, cap).len() <= if cap == 0 { 1 } else { cap },
        xs.len() > 0 ==> ring_push_all(buf, xs, cap).len() == (if cap == 0 {
            1int
        } else if buf.len() + xs.len() <= cap {
            (buf.len() + xs.len()) as int
        } else {
            cap as int
        }),
        (buf + xs).skip((buf + xs).len() - ring_push_all(buf, xs, cap).len()) == ring_push_all(buf, xs, cap),
    decreases xs.len(),
{
    if xs.len() > 0 {
        law_replay_ring(buf, xs.drop_last(), cap);
        let prev = ring_push_all(buf, xs.drop_last(), cap);
        let all = buf + xs;
        let allp = buf + xs.drop_last();
        assert(allp =~= all.drop_last());
        assert(all.last() == xs.last());
        let r = ring_push_all(buf, xs, cap);
        assert(allp.skip(allp.len() - prev.len()) == prev);
        assert(all.skip(all.len() - r.len()) =~= r);
    } else {
        assert((buf + xs) =~= buf);
        assert(buf.skip(0) =~= buf);
    }
}

} // verus!
