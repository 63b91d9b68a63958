//! Continuous audio capture: configuration, liveness status, PCM decoding
//! and the rule for what a finished reader reports.
use vstd::prelude::*;

verus! {

/// Errors that can occur during continuous audio capture.
#[derive(Debug, Clone, PartialEq, Eq)]
pub enum ContinuousCaptureError {
    StartError(String),
    ProcessDied,
    ReadError(String),
    /// An I/O error, with its message.
    IoError(String),
}

impl ContinuousCaptureError {
    /// The error's message.
    pub fn message(&self) -> (r: String)
        ensures
            r@ == match *self {
                ContinuousCaptureError::StartError(m) => "Failed to start audio capture: "@ + m@,
                ContinuousCaptureError::ProcessDied => "Audio capture process died"@,
                ContinuousCaptureError::ReadError(m) => "Failed to read audio data: "@ + m@,
                ContinuousCaptureError::IoError(m) => "IO error: "@ + m@,
            },
    {
        match self {
            ContinuousCaptureError::StartError(m) => crate::text::concat_str("Failed to start audio capture: ", m.as_str()),
            ContinuousCaptureError::ProcessDied => "Audio capture process died".to_string(),
            ContinuousCaptureError::ReadError(m) => crate::text::concat_str("Failed to read audio data: ", m.as_str()),
            ContinuousCaptureError::IoError(m) => crate::text::concat_str("IO error: ", m.as_str()),
        }
    }
}

/// Configuration for continuous audio capture.
#[derive(Debug, Clone)]
pub struct ContinuousCaptureConfig {
    /// Audio device to capture from.
    pub device: String,
    /// Sample rate (Hz).
    pub sample_rate: usize,
    /// Chunk size in samples to read at a time.
    pub chunk_size: usize,
}

impl Default for ContinuousCaptureConfig {
    fn default() -> (r: Self)
        ensures
            r.device@ == "default"@,
            r.sample_rate == 16000,
            r.chunk_size == 1600,
    {
        ContinuousCaptureConfig { device: "default".to_string(), sample_rate: 16000, chunk_size: 1600 }
    }
}

/// Liveness of the capture pipeline as observed by the reader.
#[derive(Debug, Clone, PartialEq, Eq)]
pub enum CaptureStatus {
    /// Not started, or stopped by request and ready to start again.
    Idle,
    /// The recorder is running and the reader is delivering chunks.
    Running,
    /// Capture ended on its own, with a human-readable reason.
    Stopped { reason: String },
}

impl CaptureStatus {
    /// Whether the reader is alive and delivering audio.
    pub fn is_running(&self) -> (r: bool)
        ensures
            r == (*self is Running),
    {
        match self {
            CaptureStatus::Running => true,
            _ => false,
        }
    }
}

/// The little-endian signed 16-bit samples of a PCM byte buffer; a trailing
/// odd byte is dropped.
pub open spec fn s16le_samples(bytes: Seq<u8>) -> Seq<i16> {
    Seq::new(
        bytes.len() / 2,
        |i: int| (bytes[2 * i] as int + 256 * bytes[2 * i + 1] as int - if bytes[2 * i + 1]
            >= 128 {
            65536int
        } else {
            0int
        }) as i16,
    )
}

/// Decodes little-endian signed 16-bit PCM samples.
pub fn decode_s16le(bytes: &[u8]) -> (r: Vec<i16>)
    ensures
        r@ == s16le_samples(bytes@),
{
    let n = bytes.len() / 2;
    let mut r: Vec<i16> = Vec::new();
    let mut i: usize = 0;
    while i < n
        invariant
            n == bytes@.len() / 2,
            bytes@.len() == bytes.len(),
            i <= n,
            r@ == s16le_samples(bytes@).take(i as int),
        decreases n - i,
    {
        assert(i + i + 1 < bytes@.len());
        let j: usize = i + i;
        let lo = bytes[j] as i32;
        let hi = bytes[j + 1] as i32;
        let v = lo + 256 * hi - if hi >= 128 { 65536 } else { 0 };
        r.push(v as i16);
        i = i + 1;
        assert(r@ =~= s16le_samples(bytes@).take(i as int));
    }
    assert(s16le_samples(bytes@).take(n as int) =~= s16le_samples(bytes@));
    r
}

/// What a reader that has finished reports, given its generation, the
/// current generation, whether the status still said `Running` (no stop was
/// requested), the reason the reader ended (`None` when the consumer went
/// away), and the recorder's exit status text when it was reaped. `None`
/// means the reader publishes nothing: a newer capture owns the status.
pub open spec fn reader_exit_report(
    generation: u64,
    current_generation: u64,
    still_running: bool,
    exit_reason: Option<Seq<char>>,
    exit_status: Option<Seq<char>>,
) -> Option<Option<Seq<char>>> {
    if current_generation != generation {
        None
    } else {
        match exit_reason {
            Some(reason) if still_running => Some(
                Some(
                    match exit_status {
                        Some(st) => reason + " (pw-record exit: "@ + st + ")"@,
                        None => reason,
                    },
                ),
            ),
            _ => Some(None),
        }
    }
}

/// The status a finished reader publishes (see [`reader_exit_report`]):
/// `Stopped` with the reason when capture ended on its own, `Idle` when the
/// stop was requested or the consumer left, nothing after a restart.
pub fn reader_exit_status(
    generation: u64,
    current_generation: u64,
    still_running: bool,
    exit_reason: Option<String>,
    exit_status: Option<String>,
) -> (r: Option<CaptureStatus>)
    ensures
        match reader_exit_report(
            generation,
            current_generation,
            still_running,
            crate::text::opt_view(exit_reason),
            crate::text::opt_view(exit_status),
        ) {
            None => r is None,
            Some(None) => r == Some(CaptureStatus::Idle),
            Some(Some(reason)) => r matches Some(CaptureStatus::Stopped { reason: rs }) && rs@
                == reason,
        },
{
    if current_generation != generation {
        return None;
    }
    match exit_reason {
        Some(reason) => {
            if still_running {
                let text = match exit_status {
                    Some(st) => {
                        let mut t = reason;
                        proof {
                            broadcast use vstd::string::group_string_axioms;
                        }
                        t.append(" (pw-record exit: ");
                        t.append(st.as_str());
                        t.append(")");
                        t
                    },
                    None => reason,
                };
                Some(CaptureStatus::Stopped { reason: text })
            } else {
                Some(CaptureStatus::Idle)
            }
        },
        None => Some(CaptureStatus::Idle),
    }
}

/// The bookkeeping of a capture, shared by its owner and its reader: the
/// generation of the latest start, the published status, and the generation
/// of the recorder that is still to be reaped, if any.
pub struct CaptureState {
    /// The generation claimed by the latest start (0 before any).
    pub generation: u64,
    /// The published liveness.
    pub status: CaptureStatus,
    /// The generation of the recorder not yet reaped.
    pub child: Option<u64>,
}

impl CaptureState {
    /// Nothing started: generation 0, `Idle`, no recorder.
    pub fn new() -> (r: Self)
        ensures
            r.generation == 0,
            r.status == CaptureStatus::Idle,
            r.child is None,
    {
        CaptureState { generation: 0, status: CaptureStatus::Idle, child: None }
    }

    /// Whether a start spawns a recorder: not while capture is running.
    pub fn should_start(&self) -> (r: bool)
        ensures
            r == !(self.status is Running),
    {
        !self.status.is_running()
    }

    /// A recorder was spawned: the recorder still held (returned) is to be
    /// reaped, a new generation is claimed for the new one, and the status
    /// becomes `Running`.
    pub fn started(&mut self) -> (r: (u64, Option<u64>))
        requires
            old(self).generation < u64::MAX,
        ensures
            r.0 == old(self).generation + 1,
            r.1 == old(self).child,
            final(self).generation == r.0,
            final(self).status == CaptureStatus::Running,
            final(self).child == Some(r.0),
    {
        let previous = self.child;
        self.generation = self.generation + 1;
        self.status = CaptureStatus::Running;
        self.child = Some(self.generation);
        (self.generation, previous)
    }

    /// A stop was requested: a running capture is announced `Idle` first (so
    /// that its reader's end is not reported as a failure), and the recorder
    /// still held (returned) is to be reaped.
    pub fn stop(&mut self) -> (r: Option<u64>)
        ensures
            r == old(self).child,
            final(self).child is None,
            final(self).generation == old(self).generation,
            final(self).status == (if old(self).status is Running {
                CaptureStatus::Idle
            } else {
                old(self).status
            }),
    {
        if self.status.is_running() {
            self.status = CaptureStatus::Idle;
        }
        let r = self.child;
        self.child = None;
        r
    }

    /// The reader of `generation` has ended: whether it reaps its own
    /// recorder (which is then forgotten). A later generation's recorder is
    /// left alone.
    pub fn reader_reaps(&mut self, generation: u64) -> (r: bool)
        ensures
            r == (old(self).child == Some(generation)),
            final(self).child == (if r { None } else { old(self).child }),
            final(self).generation == old(self).generation,
            final(self).status == old(self).status,
    {
        if self.child == Some(generation) {
            self.child = None;
            true
        } else {
            false
        }
    }

    /// The reader of `generation` has ended for `exit_reason`, its recorder
    /// having exited with `exit_status`: the status is published as
    /// [`reader_exit_report`] says (nothing after a restart, `Idle` after a
    /// requested stop or when the consumer left, `Stopped` otherwise). The
    /// result is the reason when `Stopped` was published.
    pub fn reader_exit(&mut self, generation: u64, exit_reason: Option<String>, exit_status: Option<String>) -> (r:
        Option<String>)
        ensures
            final(self).generation == old(self).generation,
            final(self).child == old(self).child,
            match reader_exit_report(
                generation,
                old(self).generation,
                old(self).status is Running,
                crate::text::opt_view(exit_reason),
                crate::text::opt_view(exit_status),
            ) {
                None => final(self).status == old(self).status && r is None,
                Some(None) => final(self).status == CaptureStatus::Idle && r is None,
                Some(Some(reason)) => (final(self).status matches CaptureStatus::Stopped { reason: rs } && rs@
                    == reason) && (r matches Some(t) && t@ == reason),
            },
    {
        let running = self.status.is_running();
        match reader_exit_status(generation, self.generation, running, exit_reason, exit_status) {
            None => None,
            Some(CaptureStatus::Stopped { reason }) => {
                let copy = crate::text::copy_str(reason.as_str());
                self.status = CaptureStatus::Stopped { reason };
                Some(copy)
            },
            Some(_) => {
                self.status = CaptureStatus::Idle;
                None
            },
        }
    }
}

/// A reader from an earlier capture never overwrites the status of a later one.
pub proof fn law_stale_reader_is_silent(
    generation: u64,
    current_generation: u64,
    still_running: bool,
    exit_reason: Option<Seq<char>>,
    exit_status: Option<Seq<char>>,
)
    requires
        generation != current_generation,
    ensures
        reader_exit_report(generation, current_generation, still_running, exit_reason, exit_status)
            is None,
{
}

/// A requested stop is reported as `Idle`, never as `Stopped`.
pub proof fn law_requested_stop_is_idle(
    generation: u64,
    exit_reason: Option<Seq<char>>,
    exit_status: Option<Seq<char>>,
)
    ensures
        reader_exit_report(generation, generation, false, exit_reason, exit_status) == Some(
            None::<Seq<char>>,
        ),
{
}

} // verus!
