use ears::cli::{device_action_of, Commands, DeviceAction};
use ears::ipc::{answer_command, command_socket_path, event_socket_path, parse_command_line, CommandRequest};
use ears::session::{
    check_recording, plan_transcript, stop_plan, toggle_action, vad_launch, vad_reaction, wav_header_ok,
    RecordingProblem, StopPlan, ToggleAction, TranscriptPlan, VadLaunch, VadReaction,
};
use ears::state::State;
use ears::streaming_engine::StreamingEvent;
use ears::text::parse_i32_exec;
use ears::text_filters::TextFilters;

fn wav_header() -> Vec<u8> {
    let mut h = b"RIFF".to_vec();
    h.extend_from_slice(&[0x24, 0x08, 0, 0]);
    h.extend_from_slice(b"WAVE");
    h
}

#[test]
fn toggle_ignores_vad_and_flips_recording() {
    assert_eq!(toggle_action(State::VadActive, true), ToggleAction::Ignore);
    assert_eq!(toggle_action(State::VadActive, false), ToggleAction::Ignore);
    assert_eq!(toggle_action(State::Recording, true), ToggleAction::StopAndTranscribe);
    assert_eq!(toggle_action(State::Idle, false), ToggleAction::StartRecording);
    assert_eq!(toggle_action(State::Recording, false), ToggleAction::StartRecording);
}

#[test]
fn vad_launch_stops_a_running_vad() {
    assert_eq!(vad_launch(None, |_| true), VadLaunch::Start { remove_stale_pid_file: false });
    assert_eq!(vad_launch(Some("4242\n"), |p| p == 4242), VadLaunch::StopRunning(4242));
    assert_eq!(vad_launch(Some("4242"), |_| false), VadLaunch::Start { remove_stale_pid_file: true });
    assert_eq!(vad_launch(Some("garbage"), |_| true), VadLaunch::Start { remove_stale_pid_file: true });
    assert_eq!(vad_launch(Some("-7"), |p| p == -7), VadLaunch::StopRunning(-7));
}

#[test]
fn signed_pid_parsing_follows_from_str() {
    for s in ["0", "42", "+42", "-42", "2147483647", "-2147483648", "2147483648", "-2147483649", "", "-", "+", "-+1", "1 2", "x"] {
        assert_eq!(parse_i32_exec(s), s.parse::<i32>().ok(), "input {:?}", s);
    }
}

#[test]
fn stop_plan_needs_a_living_recorder() {
    assert_eq!(stop_plan(None, |_| true), StopPlan::NoRecording { cleanup_stale: false });
    assert_eq!(stop_plan(Some(10), |p| p == 10), StopPlan::Stop(10));
    assert_eq!(stop_plan(Some(10), |_| false), StopPlan::NoRecording { cleanup_stale: true });
}

#[test]
fn recording_checks_in_order() {
    let good = wav_header();
    assert!(wav_header_ok(&good));
    assert_eq!(check_recording(false, 0, &good), Some(RecordingProblem::Missing));
    assert_eq!(check_recording(true, 44, &good), Some(RecordingProblem::NoAudio));
    assert_eq!(check_recording(true, 45, b"RIFX\0\0\0\0WAVE"), Some(RecordingProblem::Corrupted));
    assert_eq!(check_recording(true, 45, b"RIFF"), Some(RecordingProblem::Corrupted));
    assert_eq!(check_recording(true, 45, &good), None);
    assert_eq!(RecordingProblem::NoAudio.notice(), "Recording too short");
    assert_eq!(RecordingProblem::Missing.error_message(), "Audio file not found");
    assert_eq!(RecordingProblem::Corrupted.notice(), "Recording file is corrupted");
    assert!(!RecordingProblem::Missing.removes_file());
    assert!(RecordingProblem::Corrupted.removes_file());
}

#[test]
fn transcripts_are_filtered_before_delivery() {
    let mut filters = TextFilters::new();
    filters.lowercase = true;
    filters.remove_punctuation = true;
    let plan = plan_transcript(&Ok("Hello, World!".to_string()), &filters, Some("en"), true, true);
    assert_eq!(
        plan,
        TranscriptPlan::Deliver { text: "hello world".to_string(), press_enter: true, copy_to_clipboard: true }
    );
    let plan = plan_transcript(&Ok("Hi.".to_string()), &TextFilters::new(), None, false, false);
    assert_eq!(plan, TranscriptPlan::Deliver { text: "Hi.".to_string(), press_enter: false, copy_to_clipboard: false });
    assert_eq!(plan_transcript(&Ok(String::new()), &filters, None, true, true), TranscriptPlan::NoSpeech);
    assert_eq!(
        plan_transcript(&Err("timeout".to_string()), &filters, None, true, true),
        TranscriptPlan::Failed("Transcription failed: timeout".to_string())
    );
    // A transcript rejected by the alphabet guard is delivered empty, and not copied.
    let plan = plan_transcript(&Ok("Привет мир".to_string()), &TextFilters::new(), Some("en"), true, true);
    assert_eq!(plan, TranscriptPlan::Deliver { text: String::new(), press_enter: true, copy_to_clipboard: false });
}

#[test]
fn vad_events_play_cues_and_copy_segments() {
    assert_eq!(vad_reaction(&StreamingEvent::SpeechProbable, false), VadReaction::Cue("vad_speech_start"));
    assert_eq!(vad_reaction(&StreamingEvent::SpeechStarted, false), VadReaction::Cue("vad_speech_confirm"));
    assert_eq!(vad_reaction(&StreamingEvent::SpeechEnded, true), VadReaction::Cue("vad_end"));
    let seg = StreamingEvent::SegmentCompleted { text: "hi".to_string(), duration_ms: 5 };
    assert_eq!(vad_reaction(&seg, true), VadReaction::CopyText("hi".to_string()));
    assert_eq!(vad_reaction(&seg, false), VadReaction::Nothing);
    let empty = StreamingEvent::SegmentCompleted { text: String::new(), duration_ms: 5 };
    assert_eq!(vad_reaction(&empty, true), VadReaction::Nothing);
    assert_eq!(vad_reaction(&StreamingEvent::Error("x".to_string()), true), VadReaction::Nothing);
}

#[test]
fn socket_paths_follow_runtime_dir() {
    assert_eq!(event_socket_path(Some("/run/user/1000")), "/run/user/1000/ears.sock");
    assert_eq!(event_socket_path(Some("/run/user/1000/")), "/run/user/1000/ears.sock");
    assert_eq!(event_socket_path(None), "/tmp/ears.sock");
    assert_eq!(event_socket_path(Some("")), "ears.sock");
    assert_eq!(command_socket_path(Some("/run/user/1000")), "/run/user/1000/ears-cmd.sock");
    assert_eq!(command_socket_path(None), "/tmp/ears-cmd.sock");
}

#[test]
fn command_protocol_toggles_auto_enter() {
    assert_eq!(parse_command_line("  toggle-auto-enter\r"), Some(CommandRequest::ToggleAutoEnter));
    assert_eq!(parse_command_line("toggle"), None);
    let (on, reply) = answer_command("toggle-auto-enter", false);
    assert!(on);
    assert_eq!(reply, "auto-enter:on");
    let (off, reply) = answer_command("toggle-auto-enter", on);
    assert!(!off);
    assert_eq!(reply, "auto-enter:off");
    let (same, reply) = answer_command("reboot", true);
    assert!(same);
    assert_eq!(reply, "error:unknown-command");
}

#[test]
fn device_shortcuts_match_device_actions() {
    assert_eq!(device_action_of(&Commands::List), Some(DeviceAction::List));
    assert_eq!(device_action_of(&Commands::Select), Some(DeviceAction::Select));
    assert_eq!(device_action_of(&Commands::Current), Some(DeviceAction::Current));
    assert_eq!(device_action_of(&Commands::Device { action: None }), Some(DeviceAction::Current));
    assert_eq!(device_action_of(&Commands::Device { action: Some(DeviceAction::List) }), Some(DeviceAction::List));
    assert_eq!(device_action_of(&Commands::Toggle), None);
}
