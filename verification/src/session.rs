//! The decisions of the dictation commands.
//!
//! A toggle starts or stops a recording, a VAD launch either stops the VAD
//! that is running or starts one, and a stopped recording is judged and its
//! transcript delivered. The program around the library performs each step
//! (signals, files, the transcription request, typing) and asks these
//! functions what to do next.
use vstd::prelude::*;
use crate::state::State;
use crate::streaming_engine::StreamingEvent;
use crate::text::{opt_str_view, parse_i32, parse_i32_exec, trim, trim_str};
use crate::text_filters::{apply_filters, TextFilters};
use crate::recording::WAV_HEADER_SIZE;

verus! {

/// What the toggle command does.
#[derive(Debug, Clone, Copy, PartialEq, Eq, Structural)]
pub enum ToggleAction {
    /// The VAD is listening: the toggle leaves it alone.
    Ignore,
    /// A recording is running: stop it and transcribe it.
    StopAndTranscribe,
    /// Nothing is running: start a recording.
    StartRecording,
}

/// What the toggle does in state `state`, when the recorder is alive or not.
pub open spec fn toggle_action_spec(state: State, recording_alive: bool) -> ToggleAction {
    if state == State::VadActive {
        ToggleAction::Ignore
    } else if recording_alive {
        ToggleAction::StopAndTranscribe
    } else {
        ToggleAction::StartRecording
    }
}

/// Decides what the toggle command does.
pub fn toggle_action(state: State, recording_alive: bool) -> (r: ToggleAction)
    ensures
        r == toggle_action_spec(state, recording_alive),
{
    if state == State::VadActive {
        ToggleAction::Ignore
    } else if recording_alive {
        ToggleAction::StopAndTranscribe
    } else {
        ToggleAction::StartRecording
    }
}

/// What launching the VAD does.
#[derive(Debug, Clone, Copy, PartialEq, Eq, Structural)]
pub enum VadLaunch {
    /// A VAD with this process id is running: send it SIGTERM and exit.
    StopRunning(i32),
    /// Start listening; first delete the PID file when it names no living
    /// process.
    Start { remove_stale_pid_file: bool },
}

/// The process id a VAD PID file names.
pub open spec fn vad_pid(contents: Seq<char>) -> Option<i32> {
    parse_i32(trim(contents))
}

/// Decides what launching the VAD does, given the PID file's contents
/// (`None` when there is none) and a liveness probe for a process id.
pub fn vad_launch<F: Fn(i32) -> bool>(pid_contents: Option<&str>, is_alive: F) -> (r: VadLaunch)
    requires
        forall|pid: i32| is_alive.requires((pid,)),
    ensures
        match opt_str_view(pid_contents) {
            None => r == VadLaunch::Start { remove_stale_pid_file: false },
            Some(c) => match vad_pid(c) {
                None => r == VadLaunch::Start { remove_stale_pid_file: true },
                Some(pid) => (r == VadLaunch::StopRunning(pid) && is_alive.ensures((pid,), true))
                    || (r == VadLaunch::Start { remove_stale_pid_file: true } && is_alive.ensures(
                    (pid,),
                    false,
                )),
            },
        },
{
    match pid_contents {
        None => VadLaunch::Start { remove_stale_pid_file: false },
        Some(c) => {
            let t = trim_str(c);
            match parse_i32_exec(t.as_str()) {
                None => VadLaunch::Start { remove_stale_pid_file: true },
                Some(pid) => {
                    if is_alive(pid) {
                        VadLaunch::StopRunning(pid)
                    } else {
                        VadLaunch::Start { remove_stale_pid_file: true }
                    }
                },
            }
        },
    }
}

/// What stopping a recording does.
#[derive(Debug, Clone, Copy, PartialEq, Eq, Structural)]
pub enum StopPlan {
    /// There is no recording to stop: report it; when a PID file names a
    /// dead process, clean it up as stale.
    NoRecording { cleanup_stale: bool },
    /// Stop the recorder with this process id.
    Stop(u32),
}

/// Decides what stopping a recording does, given the recorded process id
/// and a liveness probe.
pub fn stop_plan<F: Fn(u32) -> bool>(pid: Option<u32>, is_alive: F) -> (r: StopPlan)
    requires
        forall|p: u32| is_alive.requires((p,)),
    ensures
        match pid {
            None => r == StopPlan::NoRecording { cleanup_stale: false },
            Some(p) => (r == StopPlan::Stop(p) && is_alive.ensures((p,), true)) || (r
                == StopPlan::NoRecording { cleanup_stale: true } && is_alive.ensures((p,), false)),
        },
{
    match pid {
        None => StopPlan::NoRecording { cleanup_stale: false },
        Some(p) => {
            if is_alive(p) {
                StopPlan::Stop(p)
            } else {
                StopPlan::NoRecording { cleanup_stale: true }
            }
        },
    }
}

/// What is wrong with a stopped recording.
#[derive(Debug, Clone, Copy, PartialEq, Eq, Structural)]
pub enum RecordingProblem {
    /// The audio file does not exist.
    Missing,
    /// The file holds no more than a WAV header.
    NoAudio,
    /// The file does not start with a RIFF/WAVE header.
    Corrupted,
}

/// The notification shown for a problem.
pub open spec fn problem_notice(p: RecordingProblem) -> Seq<char> {
    match p {
        RecordingProblem::Missing => "Recording file is empty or missing"@,
        RecordingProblem::NoAudio => "Recording too short"@,
        RecordingProblem::Corrupted => "Recording file is corrupted"@,
    }
}

/// The error the command fails with for a problem.
pub open spec fn problem_error(p: RecordingProblem) -> Seq<char> {
    match p {
        RecordingProblem::Missing => "Audio file not found"@,
        RecordingProblem::NoAudio => "Recording file contains no audio data"@,
        RecordingProblem::Corrupted => "Invalid audio file format"@,
    }
}

impl RecordingProblem {
    /// The notification shown to the user.
    pub fn notice(&self) -> (r: &'static str)
        ensures
            r@ == problem_notice(*self),
    {
        match self {
            RecordingProblem::Missing => "Recording file is empty or missing",
            RecordingProblem::NoAudio => "Recording too short",
            RecordingProblem::Corrupted => "Recording file is corrupted",
        }
    }

    /// The error the command fails with.
    pub fn error_message(&self) -> (r: &'static str)
        ensures
            r@ == problem_error(*self),
    {
        match self {
            RecordingProblem::Missing => "Audio file not found",
            RecordingProblem::NoAudio => "Recording file contains no audio data",
            RecordingProblem::Corrupted => "Invalid audio file format",
        }
    }

    /// Whether the unusable file is deleted (a missing one cannot be).
    pub fn removes_file(&self) -> (r: bool)
        ensures
            r == (*self != RecordingProblem::Missing),
    {
        match self {
            RecordingProblem::Missing => false,
            _ => true,
        }
    }
}

/// Whether the first twelve bytes of a file are a WAV header: `RIFF`, a
/// length, then `WAVE`.
pub open spec fn is_wav_header(h: Seq<u8>) -> bool {
    &&& h.len() >= 12
    &&& h[0] == 0x52u8 && h[1] == 0x49u8 && h[2] == 0x46u8 && h[3] == 0x46u8
    &&& h[8] == 0x57u8 && h[9] == 0x41u8 && h[10] == 0x56u8 && h[11] == 0x45u8
}

/// Whether `header` starts with a WAV header.
pub fn wav_header_ok(header: &[u8]) -> (r: bool)
    ensures
        r == is_wav_header(header@),
{
    header.len() >= 12 && header[0] == 0x52u8 && header[1] == 0x49u8 && header[2] == 0x46u8
        && header[3] == 0x46u8 && header[8] == 0x57u8 && header[9] == 0x41u8 && header[10]
        == 0x56u8 && header[11] == 0x45u8
}

/// What is wrong with a stopped recording, if anything: whether the file
/// exists, its length in bytes and its first bytes (the header is only
/// looked at when the file holds more than a header).
pub open spec fn recording_problem(exists: bool, len: u64, header: Seq<u8>) -> Option<
    RecordingProblem,
> {
    if !exists {
        Some(RecordingProblem::Missing)
    } else if len <= WAV_HEADER_SIZE {
        Some(RecordingProblem::NoAudio)
    } else if !is_wav_header(header) {
        Some(RecordingProblem::Corrupted)
    } else {
        None
    }
}

/// Judges a stopped recording.
pub fn check_recording(exists: bool, len: u64, header: &[u8]) -> (r: Option<RecordingProblem>)
    ensures
        r == recording_problem(exists, len, header@),
{
    if !exists {
        Some(RecordingProblem::Missing)
    } else if len <= WAV_HEADER_SIZE {
        Some(RecordingProblem::NoAudio)
    } else if !wav_header_ok(header) {
        Some(RecordingProblem::Corrupted)
    } else {
        None
    }
}

/// What becomes of a transcription's result.
#[derive(Debug, Clone, PartialEq, Eq)]
pub enum TranscriptPlan {
    /// Type the filtered text; then press Enter when asked (and typing
    /// worked), and copy it to the clipboard when asked.
    Deliver { text: String, press_enter: bool, copy_to_clipboard: bool },
    /// The server heard nothing: report it.
    NoSpeech,
    /// The request failed: report this notice and fail.
    Failed(String),
}

/// Decides what becomes of a transcription's result (`Err` holds the
/// error's text), with the text filters, the target language and the
/// auto-enter and clipboard settings.
pub fn plan_transcript(
    result: &Result<String, String>,
    filters: &TextFilters,
    language: Option<&str>,
    auto_enter: bool,
    save_to_clipboard: bool,
) -> (r: TranscriptPlan)
    ensures
        match result {
            Ok(t) => if t@.len() == 0 {
                r == TranscriptPlan::NoSpeech
            } else {
                match r {
                    TranscriptPlan::Deliver { text, press_enter, copy_to_clipboard } => {
                        &&& text@ == apply_filters(*filters, t@, opt_str_view(language))
                        &&& press_enter == auto_enter
                        &&& copy_to_clipboard == (save_to_clipboard && text@.len() > 0)
                    },
                    _ => false,
                }
            },
            Err(e) => match r {
                TranscriptPlan::Failed(m) => m@ == "Transcription failed: "@ + e@,
                _ => false,
            },
        },
{
    match result {
        Ok(t) => {
            if t.as_str().is_empty() {
                proof {
                    assert(t@.len() == 0);
                }
                TranscriptPlan::NoSpeech
            } else {
                let text = filters.apply(t.as_str(), language);
                let copy = save_to_clipboard && !text.as_str().is_empty();
                TranscriptPlan::Deliver { text, press_enter: auto_enter, copy_to_clipboard: copy }
            }
        },
        Err(e) => {
            let mut m = "Transcription failed: ".to_string();
            m.append(e.as_str());
            TranscriptPlan::Failed(m)
        },
    }
}

/// What the VAD daemon does with an event of its engine, besides passing it
/// on to its listeners.
#[derive(Debug, Clone, PartialEq, Eq)]
pub enum VadReaction {
    /// Play the named cue.
    Cue(&'static str),
    /// Copy a finished segment's text to the clipboard.
    CopyText(String),
    /// Nothing more.
    Nothing,
}

/// Decides what the VAD daemon does with an event.
pub fn vad_reaction(event: &StreamingEvent, save_to_clipboard: bool) -> (r: VadReaction)
    ensures
        match event {
            StreamingEvent::SpeechProbable => r == VadReaction::Cue("vad_speech_start"),
            StreamingEvent::SpeechStarted => r == VadReaction::Cue("vad_speech_confirm"),
            StreamingEvent::SpeechEnded => r == VadReaction::Cue("vad_end"),
            StreamingEvent::SegmentCompleted { text, .. } => if save_to_clipboard && text@.len()
                > 0 {
                r matches VadReaction::CopyText(t) && t@ == text@
            } else {
                r == VadReaction::Nothing
            },
            _ => r == VadReaction::Nothing,
        },
{
    match event {
        StreamingEvent::SpeechProbable => VadReaction::Cue("vad_speech_start"),
        StreamingEvent::SpeechStarted => VadReaction::Cue("vad_speech_confirm"),
        StreamingEvent::SpeechEnded => VadReaction::Cue("vad_end"),
        StreamingEvent::SegmentCompleted { text, .. } => {
            if save_to_clipboard && !text.as_str().is_empty() {
                VadReaction::CopyText(crate::text::copy_str(text.as_str()))
            } else {
                VadReaction::Nothing
            }
        },
        _ => VadReaction::Nothing,
    }
}

} // verus!
