//! Health of the hands-free (VAD) pipeline.
//!
//! The pipeline records its progress in a snapshot; a supervisor reads the
//! snapshot and diagnoses stalls from the timestamps alone: silence is
//! alive, missing progress is not. Times are monotonic milliseconds.
use vstd::prelude::*;
use crate::text::{
    chars_of, last_index_of, last_index_of_exec, parse_decimal, parse_decimal_exec, string_of,
    words, words_exec,
};

verus! {

/// The name of the published health file.
pub const HEALTH_FILE: &'static str = "vad-health.json";

/// The pipeline stage being worked on.
#[derive(Clone, Copy, Debug, PartialEq, Eq, Structural)]
pub enum Stage {
    Listening,
    Detecting,
    Saving,
    Transcribing,
    Typing,
    Stopped,
}

/// Longest capture gap before audio counts as not arriving.
pub const CAPTURE_STALL_MS: u64 = 3000;

/// Longest time a working stage may take.
pub const SLOW_STAGE_MS: u64 = 5000;

/// Longest time voice detection may make no progress while listening.
pub const DETECTOR_STALL_MS: u64 = 3000;

/// Largest tolerated amount of audio waiting to be analysed.
pub const MAX_BACKLOG_MS: u64 = 2000;

/// Longest capture error text kept, in characters.
pub const MAX_ERROR_CHARS: usize = 256;

/// The pipeline's progress (the measured audio levels are kept by the
/// caller beside it).
#[derive(Clone, Debug)]
pub struct HealthSnapshot {
    pub version: u8,
    pub pid: u32,
    pub process_start_ticks: String,
    pub boot_id: String,
    pub session_id: String,
    pub session_kind: String,
    pub device: String,
    pub updated_monotonic_ms: u64,
    pub stage: Stage,
    pub stage_since_ms: u64,
    pub capture_last_ms: Option<u64>,
    pub detector_last_ms: Option<u64>,
    pub captured_samples: u64,
    pub processed_frames: u64,
    pub queue_chunks: usize,
    pub audio_backlog_ms: u64,
    pub candidate_frames: usize,
    pub rejected_candidates: u64,
    pub speaking: bool,
    pub capture_error: Option<String>,
}

/// `now - t`, or zero when `t` is later.
pub open spec fn since(now: u64, t: u64) -> int {
    if now >= t { now - t } else { 0 }
}

/// The problem a snapshot shows at `now`, most serious first: a stopped
/// pipeline, a capture error, no audio arriving, a slow working stage,
/// stalled voice detection, an audio backlog.
pub open spec fn diagnosis(
    stage: Stage,
    stage_since_ms: u64,
    capture_last_ms: Option<u64>,
    detector_last_ms: Option<u64>,
    audio_backlog_ms: u64,
    capture_failed: bool,
    now: u64,
) -> Option<Seq<char>> {
    if stage == Stage::Stopped {
        Some("pipeline stopped"@)
    } else if capture_failed {
        Some("capture stopped"@)
    } else if (match capture_last_ms {
        Some(t) => since(now, t) > CAPTURE_STALL_MS,
        None => since(now, stage_since_ms) > CAPTURE_STALL_MS,
    }) {
        Some("no audio arriving"@)
    } else if stage != Stage::Listening && since(now, stage_since_ms) > SLOW_STAGE_MS {
        Some("slow pipeline stage"@)
    } else if stage == Stage::Listening && since(
        now,
        match detector_last_ms {
            Some(t) => t,
            None => stage_since_ms,
        },
    ) > DETECTOR_STALL_MS {
        Some("voice detection stalled"@)
    } else if audio_backlog_ms > MAX_BACKLOG_MS {
        Some("audio backlog"@)
    } else {
        None
    }
}

/// Milliseconds of 16 kHz audio captured but not yet analysed in 512-sample
/// frames.
pub open spec fn backlog_ms(captured_samples: u64, processed_frames: u64) -> int {
    since(captured_samples, (processed_frames * 512) as u64) / 16
}

/// The start time field of `/proc/<pid>/stat`: the 20th white-space
/// separated field after the last `)` (the command name may contain spaces
/// and parentheses), when it is a number.
pub open spec fn start_ticks_field(stat: Seq<char>) -> Option<Seq<char>> {
    match last_index_of(stat, ')') {
        None => None,
        Some(k) => {
            let fields = words(stat.skip(k + 1));
            if fields.len() > 19 && parse_decimal(fields[19], u64::MAX as int) is Some {
                Some(fields[19])
            } else {
                None
            }
        },
    }
}

/// Extracts the process start time from the contents of `/proc/<pid>/stat`.
pub fn process_start_ticks(stat: &str) -> (r: Option<String>)
    ensures
        crate::text::opt_view(r) == start_ticks_field(stat@),
{
    let v = chars_of(stat);
    match last_index_of_exec(&v, ')') {
        None => None,
        Some(k) => {
            let tail = crate::text::slice_chars(&v, k + 1, v.len());
            assert(tail@ =~= stat@.skip(k + 1));
            let fields = words_exec(&tail);
            let ghost fv = fields@.map_values(|w: Vec<char>| w@);
            if fields.len() > 19 {
                assert(fv[19] == fields@[19]@);
                let f = string_of(&fields[19]);
                if parse_decimal_exec(f.as_str(), u64::MAX).is_some() {
                    Some(f)
                } else {
                    None
                }
            } else {
                None
            }
        },
    }
}

impl HealthSnapshot {
    /// A snapshot of a pipeline that starts listening at `now`.
    pub fn new(pid: u32, process_start_ticks: String, boot_id: String, session_id: String, now: u64) -> (r: Self)
        ensures
            r.version == 1,
            r.pid == pid,
            r.process_start_ticks == process_start_ticks,
            r.boot_id == boot_id,
            r.session_id == session_id,
            r.session_kind@ == "desktop_vad"@,
            r.device@.len() == 0,
            r.updated_monotonic_ms == now,
            r.stage == Stage::Listening,
            r.stage_since_ms == now,
            r.capture_last_ms is None,
            r.detector_last_ms is None,
            r.captured_samples == 0,
            r.processed_frames == 0,
            r.queue_chunks == 0,
            r.audio_backlog_ms == 0,
            r.candidate_frames == 0,
            r.rejected_candidates == 0,
            !r.speaking,
            r.capture_error is None,
    {
        HealthSnapshot {
            version: 1,
            pid,
            process_start_ticks,
            boot_id,
            session_id,
            session_kind: "desktop_vad".to_string(),
            device: String::new(),
            updated_monotonic_ms: now,
            stage: Stage::Listening,
            stage_since_ms: now,
            capture_last_ms: None,
            detector_last_ms: None,
            captured_samples: 0,
            processed_frames: 0,
            queue_chunks: 0,
            audio_backlog_ms: 0,
            candidate_frames: 0,
            rejected_candidates: 0,
            speaking: false,
            capture_error: None,
        }
    }

    /// The problem the snapshot shows at `now`, if any. Progress is
    /// diagnosed, not the amount of sound: silent audio is alive.
    pub fn problem(&self, now: u64) -> (r: Option<&'static str>)
        ensures
            crate::text::opt_str_view(r) == diagnosis(
                self.stage,
                self.stage_since_ms,
                self.capture_last_ms,
                self.detector_last_ms,
                self.audio_backlog_ms,
                self.capture_error is Some,
                now,
            ),
    {
        if self.stage == Stage::Stopped {
            return Some("pipeline stopped");
        }
        if self.capture_error.is_some() {
            return Some("capture stopped");
        }
        let capture_stalled = match self.capture_last_ms {
            Some(t) => now.saturating_sub(t) > CAPTURE_STALL_MS,
            None => now.saturating_sub(self.stage_since_ms) > CAPTURE_STALL_MS,
        };
        if capture_stalled {
            return Some("no audio arriving");
        }
        if self.stage != Stage::Listening && now.saturating_sub(self.stage_since_ms) > SLOW_STAGE_MS {
            return Some("slow pipeline stage");
        }
        let detector_since = match self.detector_last_ms {
            Some(t) => t,
            None => self.stage_since_ms,
        };
        if self.stage == Stage::Listening && now.saturating_sub(detector_since) > DETECTOR_STALL_MS {
            return Some("voice detection stalled");
        }
        if self.audio_backlog_ms > MAX_BACKLOG_MS {
            return Some("audio backlog");
        }
        None
    }

    /// Records captured audio at `now`.
    pub fn captured(&mut self, samples: u64, now: u64)
        requires
            samples > 0,
            old(self).captured_samples + samples <= u64::MAX,
        ensures
            final(self).capture_last_ms == Some(now),
            final(self).captured_samples == old(self).captured_samples + samples,
            final(self).stage == old(self).stage,
            final(self).stage_since_ms == old(self).stage_since_ms,
            final(self).processed_frames == old(self).processed_frames,
            final(self).capture_error == old(self).capture_error,
    {
        self.capture_last_ms = Some(now);
        self.captured_samples = self.captured_samples + samples;
    }

    /// Records that capture stopped, keeping the first 256 characters of the
    /// reason.
    pub fn capture_stopped(&mut self, reason: &str)
        ensures
            final(self).capture_error matches Some(e) && e@ == reason@.take(
                if reason@.len() <= MAX_ERROR_CHARS { reason@.len() as int } else { MAX_ERROR_CHARS as int },
            ),
            final(self).stage == old(self).stage,
            final(self).stage_since_ms == old(self).stage_since_ms,
            final(self).capture_last_ms == old(self).capture_last_ms,
    {
        let v = chars_of(reason);
        let n = if v.len() <= MAX_ERROR_CHARS { v.len() } else { MAX_ERROR_CHARS };
        let e = crate::text::string_of_range(&v, 0, n);
        assert(v@.subrange(0, n as int) =~= reason@.take(n as int));
        self.capture_error = Some(e);
    }

    /// Records a voice detection frame at `now`.
    pub fn frame(&mut self, candidate_frames: usize, speaking: bool, rejected: bool, now: u64)
        requires
            old(self).processed_frames < u64::MAX,
            old(self).rejected_candidates < u64::MAX,
        ensures
            final(self).detector_last_ms == Some(now),
            final(self).processed_frames == old(self).processed_frames + 1,
            final(self).candidate_frames == candidate_frames,
            final(self).speaking == speaking,
            final(self).rejected_candidates == old(self).rejected_candidates + if rejected { 1int } else { 0 },
            final(self).stage == old(self).stage,
            final(self).stage_since_ms == old(self).stage_since_ms,
            final(self).captured_samples == old(self).captured_samples,
            final(self).capture_last_ms == old(self).capture_last_ms,
            final(self).capture_error == old(self).capture_error,
    {
        self.detector_last_ms = Some(now);
        self.processed_frames = self.processed_frames + 1;
        self.candidate_frames = candidate_frames;
        self.speaking = speaking;
        if rejected {
            self.rejected_candidates = self.rejected_candidates + 1;
        }
    }

    /// Enters `stage` at `now`; returns the stage left, to be restored when
    /// the work is done.
    pub fn enter(&mut self, stage: Stage, now: u64) -> (previous: Stage)
        ensures
            previous == old(self).stage,
            final(self).stage == stage,
            final(self).stage_since_ms == now,
            final(self).capture_last_ms == old(self).capture_last_ms,
            final(self).detector_last_ms == old(self).detector_last_ms,
            final(self).capture_error == old(self).capture_error,
            final(self).audio_backlog_ms == old(self).audio_backlog_ms,
    {
        let previous = self.stage;
        self.stage = stage;
        self.stage_since_ms = now;
        previous
    }

    /// The snapshot as published at `now`: stamped, with the backlog of
    /// captured audio not yet analysed.
    pub fn published(&self, now: u64) -> (r: Self)
        requires
            self.processed_frames * 512 <= u64::MAX,
        ensures
            r.updated_monotonic_ms == now,
            r.audio_backlog_ms == backlog_ms(self.captured_samples, self.processed_frames),
            r.stage == self.stage,
            r.stage_since_ms == self.stage_since_ms,
            r.capture_last_ms == self.capture_last_ms,
            r.detector_last_ms == self.detector_last_ms,
            r.captured_samples == self.captured_samples,
            r.processed_frames == self.processed_frames,
            r.capture_error == self.capture_error,
    {
        let mut r = self.clone_snapshot();
        r.updated_monotonic_ms = now;
        r.audio_backlog_ms = self.captured_samples.saturating_sub(self.processed_frames * 512) / 16;
        r
    }

    /// A copy of the snapshot.
    pub fn clone_snapshot(&self) -> (r: Self)
        ensures
            r == *self,
    {
        HealthSnapshot {
            version: self.version,
            pid: self.pid,
            process_start_ticks: self.process_start_ticks.clone(),
            boot_id: self.boot_id.clone(),
            session_id: self.session_id.clone(),
            session_kind: self.session_kind.clone(),
            device: self.device.clone(),
            updated_monotonic_ms: self.updated_monotonic_ms,
            stage: self.stage,
            stage_since_ms: self.stage_since_ms,
            capture_last_ms: self.capture_last_ms,
            detector_last_ms: self.detector_last_ms,
            captured_samples: self.captured_samples,
            processed_frames: self.processed_frames,
            queue_chunks: self.queue_chunks,
            audio_backlog_ms: self.audio_backlog_ms,
            candidate_frames: self.candidate_frames,
            rejected_candidates: self.rejected_candidates,
            speaking: self.speaking,
            capture_error: match &self.capture_error {
                Some(e) => Some(e.clone()),
                None => None,
            },
        }
    }
}

/// A stopped pipeline is always reported stopped; a pipeline whose capture
/// and detector are current and that has no backlog is healthy exactly when
/// it is listening or has been in its working stage within the limit.
pub proof fn law_diagnosis_of_stages(s: Stage, since_ms: u64, now: u64)
    ensures
        diagnosis(Stage::Stopped, since_ms, None, None, 0, false, now) == Some("pipeline stopped"@),
        diagnosis(s, since_ms, Some(now), Some(now), 0, false, now) is None <==> (s != Stage::Stopped
            && (s == Stage::Listening || since(now, since_ms) <= SLOW_STAGE_MS)),
{
}

/// Silence is alive: a listening pipeline whose capture and detector both
/// made progress within their limits and that has no backlog shows no
/// problem, whatever the audio was.
pub proof fn law_silence_is_alive(since_ms: u64, capture_t: u64, detector_t: u64, backlog: u64, now: u64)
    requires
        since(now, capture_t) <= CAPTURE_STALL_MS,
        since(now, detector_t) <= DETECTOR_STALL_MS,
        backlog <= MAX_BACKLOG_MS,
    ensures
        diagnosis(Stage::Listening, since_ms, Some(capture_t), Some(detector_t), backlog, false, now) is None,
{
}

} // verus!
