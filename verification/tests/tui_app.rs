use ears::streaming_engine::StreamingEvent;
use ears::tui::{ClickAction, LogFilter, Panel, ThemeName};
use ears::tui_app::{App, Effect, Key, KeyPress, Modifiers, Rect};
use ears::audio::AudioDevice;

fn key(k: Key) -> KeyPress {
    KeyPress { key: k, modifiers: Modifiers::Plain }
}

fn shift_key(k: Key) -> KeyPress {
    KeyPress { key: k, modifiers: Modifiers::Shift }
}

fn type_text(app: &mut App, text: &str) {
    for c in text.chars() {
        app.handle_key(key(Key::Char(c)));
    }
}

#[test]
fn test_panel_navigation_tab() {
    let mut app = App::new();
    assert_eq!(app.current_panel, Panel::Configuration);
    app.handle_key(key(Key::Tab));
    assert_eq!(app.current_panel, Panel::Logs);
    app.handle_key(key(Key::Tab));
    assert_eq!(app.current_panel, Panel::LiveTranscription);
    app.handle_key(key(Key::Tab));
    assert_eq!(app.current_panel, Panel::Configuration);
}

#[test]
fn test_panel_navigation_hl() {
    let mut app = App::new();
    app.handle_key(key(Key::Char('h')));
    assert_eq!(app.current_panel, Panel::LiveTranscription);
    app.handle_key(key(Key::Char('h')));
    assert_eq!(app.current_panel, Panel::Logs);
    app.handle_key(key(Key::Char('l')));
    assert_eq!(app.current_panel, Panel::LiveTranscription);
}

#[test]
fn test_help_overlay_toggle() {
    let mut app = App::new();
    assert!(!app.help_overlay_open);
    app.handle_key(key(Key::Char('?')));
    assert!(app.help_overlay_open);
    assert!(app.handle_key(key(Key::Char('q'))));
    assert!(app.help_overlay_open);
    app.handle_key(key(Key::Esc));
    assert!(!app.help_overlay_open);
}

#[test]
fn test_help_overlay_close_with_question_mark() {
    let mut app = App::new();
    app.handle_key(key(Key::Char('?')));
    assert!(app.help_overlay_open);
    app.handle_key(key(Key::Char('?')));
    assert!(!app.help_overlay_open);
}

#[test]
fn test_command_mode_enter_exit() {
    let mut app = App::new();
    assert!(!app.command_mode);
    app.handle_key(key(Key::Char(':')));
    assert!(app.command_mode);
    app.handle_key(key(Key::Esc));
    assert!(!app.command_mode);
}

#[test]
fn test_command_mode_quit() {
    let mut app = App::new();
    app.handle_key(key(Key::Char(':')));
    app.handle_key(key(Key::Char('q')));
    let should_continue = app.handle_key(key(Key::Enter));
    assert!(!should_continue);
}

#[test]
fn test_command_mode_unknown_command() {
    let mut app = App::new();
    let initial_logs = app.logs.len();
    app.handle_key(key(Key::Char(':')));
    app.handle_key(key(Key::Char('x')));
    app.handle_key(key(Key::Enter));
    assert!(app.logs.len() > initial_logs);
    assert!(app.logs.last().unwrap().contains("Unknown command"));
}

#[test]
fn test_command_theme_toggle() {
    let mut app = App::new();
    assert_eq!(app.theme_name, ThemeName::Dark);
    app.handle_key(key(Key::Char(':')));
    type_text(&mut app, "theme");
    app.handle_key(key(Key::Enter));
    assert_eq!(app.theme_name, ThemeName::Light);
}

#[test]
fn test_command_theme_set_specific() {
    let mut app = App::new();
    app.handle_key(key(Key::Char(':')));
    type_text(&mut app, "theme dark");
    app.handle_key(key(Key::Enter));
    assert_eq!(app.theme_name, ThemeName::Dark);
}

#[test]
fn command_messages_and_export() {
    let mut app = App::new();
    app.handle_key(key(Key::Char(':')));
    type_text(&mut app, " theme neon ");
    app.handle_key(key(Key::Enter));
    assert_eq!(app.logs.last().unwrap(), "Unknown theme: neon (available: dark, light)");
    app.handle_key(key(Key::Char(':')));
    type_text(&mut app, "w");
    app.handle_key(key(Key::Enter));
    assert_eq!(app.logs.last().unwrap(), "Configuration saved");
    app.handle_key(key(Key::Char(':')));
    type_text(&mut app, "export /tmp/x.log ");
    assert!(app.handle_key(key(Key::Enter)));
    assert_eq!(app.take_effects(), vec![Effect::ExportLogs(Some("/tmp/x.log".to_string()))]);
    app.handle_key(key(Key::Char(':')));
    type_text(&mut app, "wqx");
    app.handle_key(key(Key::Backspace));
    assert!(!app.handle_key(key(Key::Enter)));
}

#[test]
fn test_search_mode_enter_exit() {
    let mut app = App::new();
    app.current_panel = Panel::Logs;
    app.handle_key(key(Key::Char('/')));
    assert!(app.search_mode);
    app.handle_key(key(Key::Esc));
    assert!(!app.search_mode);
}

#[test]
fn test_search_finds_matches() {
    let mut app = App::new();
    app.current_panel = Panel::Logs;
    app.logs = vec![
        "Application started".to_string(),
        "Error: connection failed".to_string(),
        "TUI initialized".to_string(),
    ];
    app.handle_key(key(Key::Char('/')));
    type_text(&mut app, "error");
    assert_eq!(app.search_matches.len(), 1);
    assert_eq!(app.search_matches[0], 1);
}

#[test]
fn test_search_navigation_n() {
    let mut app = App::new();
    app.current_panel = Panel::Logs;
    app.logs = vec!["error one".to_string(), "ok".to_string(), "error two".to_string()];
    app.handle_key(key(Key::Char('/')));
    type_text(&mut app, "error");
    app.handle_key(key(Key::Enter));
    assert_eq!(app.search_matches, vec![0, 2]);
    assert_eq!(app.selected_log, 0);
    app.handle_key(key(Key::Char('n')));
    assert_eq!(app.selected_log, 2);
    app.handle_key(key(Key::Char('n')));
    assert_eq!(app.selected_log, 0);
}

#[test]
fn test_search_navigation_shift_n() {
    let mut app = App::new();
    app.current_panel = Panel::Logs;
    app.logs = vec!["error one".to_string(), "ok".to_string(), "error two".to_string()];
    app.handle_key(key(Key::Char('/')));
    type_text(&mut app, "error");
    app.handle_key(key(Key::Enter));
    app.handle_key(shift_key(Key::Char('N')));
    assert_eq!(app.selected_log, 2);
}

#[test]
fn test_log_filter_cycle() {
    let mut app = App::new();
    app.current_panel = Panel::Logs;
    assert_eq!(app.log_filter, LogFilter::All);
    app.handle_key(shift_key(Key::Char('F')));
    assert_eq!(app.log_filter, LogFilter::Errors);
    app.handle_key(shift_key(Key::Char('F')));
    assert_eq!(app.log_filter, LogFilter::Warnings);
    app.handle_key(shift_key(Key::Char('F')));
    assert_eq!(app.log_filter, LogFilter::All);
}

#[test]
fn test_scroll_in_logs_panel() {
    let mut app = App::new();
    app.current_panel = Panel::Logs;
    app.logs = vec!["a".to_string(), "b".to_string(), "c".to_string()];
    app.selected_log = 0;
    app.handle_key(key(Key::Char('j')));
    assert_eq!(app.selected_log, 1);
    app.handle_key(key(Key::Char('j')));
    assert_eq!(app.selected_log, 2);
    app.handle_key(key(Key::Char('j')));
    assert_eq!(app.selected_log, 2);
    app.handle_key(key(Key::Char('k')));
    assert_eq!(app.selected_log, 1);
}

#[test]
fn test_vad_toggle() {
    let mut app = App::new();
    assert!(!app.vad_active);
    app.handle_key(key(Key::Char('v')));
    assert!(app.vad_active);
    app.handle_key(key(Key::Char('v')));
    assert!(!app.vad_active);
}

#[test]
fn test_space_toggles_vad() {
    let mut app = App::new();
    assert!(!app.vad_active);
    app.handle_key(key(Key::Char(' ')));
    assert!(app.vad_active);
}

#[test]
fn test_toggle_lowercase_filter() {
    let mut app = App::new();
    app.current_panel = Panel::Configuration;
    let initial = app.text_filters.lowercase;
    app.handle_key(key(Key::Char('f')));
    assert_ne!(app.text_filters.lowercase, initial);
}

#[test]
fn test_toggle_punctuation_filter() {
    let mut app = App::new();
    app.current_panel = Panel::Configuration;
    let initial = app.text_filters.remove_punctuation;
    app.handle_key(key(Key::Char('p')));
    assert_ne!(app.text_filters.remove_punctuation, initial);
}

#[test]
fn test_toggle_progressive_typing_in_configuration() {
    let mut app = App::new();
    app.current_panel = Panel::Configuration;
    let initial = app.progressive_typing;
    app.handle_key(key(Key::Char('t')));
    assert_ne!(app.progressive_typing, initial);
}

#[test]
fn test_toggle_auto_correction_in_configuration() {
    let mut app = App::new();
    app.current_panel = Panel::Configuration;
    let initial = app.auto_correction;
    app.handle_key(key(Key::Char('a')));
    assert_ne!(app.auto_correction, initial);
}

#[test]
fn test_toggle_progressive_typing_in_live() {
    let mut app = App::new();
    app.current_panel = Panel::LiveTranscription;
    let initial = app.progressive_typing;
    app.handle_key(key(Key::Char('t')));
    assert_ne!(app.progressive_typing, initial);
}

#[test]
fn test_toggle_auto_correction_in_live() {
    let mut app = App::new();
    app.current_panel = Panel::LiveTranscription;
    let initial = app.auto_correction;
    app.handle_key(key(Key::Char('a')));
    assert_ne!(app.auto_correction, initial);
}

#[test]
fn test_quit_with_q() {
    let mut app = App::new();
    let result = app.handle_key(key(Key::Char('q')));
    assert!(!result);
}

#[test]
fn test_quit_with_esc() {
    let mut app = App::new();
    let result = app.handle_key(key(Key::Esc));
    assert!(!result);
}

#[test]
fn quit_with_control_c() {
    let mut app = App::new();
    assert!(!app.handle_key(KeyPress { key: Key::Char('c'), modifiers: Modifiers::Control }));
    assert!(app.handle_key(key(Key::Char('c'))));
}

#[test]
fn test_handle_segment_completed() {
    let mut app = App::new();
    app.handle_streaming_event(StreamingEvent::SegmentCompleted {
        text: "hello world".to_string(),
        duration_ms: 500,
    });
    assert_eq!(app.total_transcriptions, 1);
    assert_eq!(app.successful_transcriptions, 1);
    assert_eq!(app.total_words, 2);
    assert_eq!(app.logs.last().unwrap(), "Segment: \"hello world\" (500ms)");
}

#[test]
fn test_handle_streaming_error() {
    let mut app = App::new();
    app.handle_streaming_event(StreamingEvent::Error("timeout".to_string()));
    assert_eq!(app.total_transcriptions, 1);
    assert_eq!(app.failed_transcriptions, 1);
    assert_eq!(app.logs.last().unwrap(), "Streaming error: timeout");
}

#[test]
fn speech_events_queue_cues() {
    let mut app = App::new();
    app.handle_streaming_event(StreamingEvent::SpeechStarted);
    assert!(app.is_speaking);
    app.handle_streaming_event(StreamingEvent::SpeechEnded);
    assert!(!app.is_speaking);
    assert_eq!(
        app.take_effects(),
        vec![Effect::Cue("vad_speech_confirm"), Effect::Cue("vad_end"), Effect::RestoreVolume]
    );
}

#[test]
fn test_env_server_blocks_edit() {
    let mut app = App::new();
    app.env_server = true;
    app.current_panel = Panel::Configuration;
    app.handle_key(key(Key::Char('e')));
    assert!(app.editing_field.is_none());
    assert!(app.logs.last().unwrap().contains("Cannot edit"));
}

#[test]
fn editing_the_server_url() {
    let mut app = App::new();
    app.handle_key(key(Key::Char('e')));
    assert!(app.editing_field.is_some());
    for _ in 0..app.edit_buffer.chars().count() {
        app.handle_key(key(Key::Backspace));
    }
    type_text(&mut app, "http://example.com:9000");
    app.handle_key(key(Key::Enter));
    assert!(app.editing_field.is_none());
    assert_eq!(app.server, "http://example.com:9000/");
    assert_eq!(app.model, "(connecting...)");
    assert_eq!(app.logs.last().unwrap(), "Server URL set to: http://example.com:9000/");
    assert_eq!(app.take_effects(), vec![Effect::SaveConfig, Effect::FetchModel]);
    app.handle_key(key(Key::Char('e')));
    for _ in 0..app.edit_buffer.chars().count() {
        app.handle_key(key(Key::Backspace));
    }
    type_text(&mut app, "not a url");
    app.handle_key(key(Key::Enter));
    assert!(app.logs.last().unwrap().starts_with("Invalid URL: "));
    assert_eq!(app.server, "http://example.com:9000/");
}

#[test]
fn test_add_log_auto_scrolls() {
    let mut app = App::new();
    app.selected_log = app.logs.len() - 1;
    app.add_log("new message");
    assert_eq!(app.selected_log, app.logs.len() - 1);
}

#[test]
fn test_add_log_no_scroll_if_not_at_end() {
    let mut app = App::new();
    app.logs = vec!["a".to_string(), "b".to_string()];
    app.selected_log = 0;
    app.add_log("c");
    assert_eq!(app.selected_log, 0);
}

#[test]
fn volume_keys_clamp() {
    let mut app = App::new();
    app.handle_key(key(Key::Char('+')));
    assert_eq!(app.cue_volume, 100);
    app.handle_key(key(Key::Char('-')));
    assert_eq!(app.cue_volume, 90);
    assert_eq!(app.logs.last().unwrap(), "Cue volume: 90%");
    app.handle_key(key(Key::Char(']')));
    assert_eq!(app.duck_percent, 55);
    app.handle_key(key(Key::Char('[')));
    assert_eq!(app.duck_percent, 50);
    app.handle_key(shift_key(Key::Char('D')));
    assert!(app.duck_enabled);
}

#[test]
fn language_and_typing_mode_cycle() {
    let mut app = App::new();
    app.handle_key(shift_key(Key::Char('L')));
    assert_eq!(app.language.as_deref(), Some("en"));
    app.handle_key(shift_key(Key::Char('L')));
    assert_eq!(app.language.as_deref(), Some("no"));
    app.handle_key(shift_key(Key::Char('L')));
    assert_eq!(app.language, None);
    assert_eq!(app.logs.last().unwrap(), "Language set to: auto");
    app.handle_key(key(Key::Char('m')));
    assert_eq!(app.logs.last().unwrap(), "Typing mode: Wtype");
}

#[test]
fn device_picker_flow() {
    let mut app = App::new();
    app.handle_key(key(Key::Char('d')));
    assert_eq!(app.take_effects(), vec![Effect::ListDevices]);
    let devices = vec![
        AudioDevice { name: "a".to_string(), description: "Mic A".to_string() },
        AudioDevice { name: "default".to_string(), description: "Default".to_string() },
    ];
    app.open_device_picker_with(Ok(devices));
    assert!(app.device_picker_open);
    assert_eq!(app.device_picker_selected, 1);
    app.handle_key(key(Key::Char('j')));
    assert_eq!(app.device_picker_selected, 0);
    app.handle_key(key(Key::Char('k')));
    assert_eq!(app.device_picker_selected, 1);
    app.handle_key(key(Key::Up));
    assert_eq!(app.device_picker_selected, 0);
    app.handle_key(key(Key::Enter));
    assert!(!app.device_picker_open);
    assert_eq!(app.device, "a");
    assert_eq!(app.logs.last().unwrap(), "Device set to: Mic A");
    app.open_device_picker_with(Err("boom".to_string()));
    assert_eq!(app.device_picker_error.as_deref(), Some("Failed to list devices: boom"));
}

#[test]
fn profile_cycle_requests_next_profile() {
    let mut app = App::new();
    app.handle_key(shift_key(Key::Char('P')));
    assert_eq!(app.logs.last().unwrap(), "No named profiles found");
    app.available_profiles = vec!["work".to_string(), "home".to_string()];
    app.handle_key(shift_key(Key::Char('P')));
    assert_eq!(app.take_effects(), vec![Effect::SwitchProfile(Some("work".to_string()))]);
    app.profile = Some("work".to_string());
    app.handle_key(shift_key(Key::Char('P')));
    assert_eq!(app.take_effects(), vec![Effect::SwitchProfile(Some("home".to_string()))]);
    app.profile = Some("home".to_string());
    app.handle_key(shift_key(Key::Char('P')));
    assert_eq!(app.take_effects(), vec![Effect::SwitchProfile(None)]);
}

#[test]
fn clicks_hit_the_first_region() {
    let mut app = App::new();
    app.add_clickable_region(Rect { x: 0, y: 0, width: 10, height: 2 }, ClickAction::SwitchPanel(Panel::Logs));
    app.add_clickable_region(Rect { x: 0, y: 0, width: 20, height: 20 }, ClickAction::ToggleVadMode);
    assert!(app.handle_mouse(true, 5, 1));
    assert_eq!(app.current_panel, Panel::Logs);
    assert!(!app.vad_active);
    app.handle_mouse(true, 15, 15);
    assert!(app.vad_active);
    app.handle_mouse(false, 15, 15);
    assert!(app.vad_active);
    app.clear_clickable_regions();
    app.handle_mouse(true, 15, 15);
    assert!(app.vad_active);
}

#[test]
fn first_tick_fetches_model() {
    let mut app = App::new();
    app.handle_tick();
    assert_eq!(app.take_effects(), vec![Effect::FetchModel]);
    app.handle_tick();
    assert!(app.take_effects().is_empty());
}

#[test]
fn streaming_state_is_taken_as_given() {
    let mut app = App::new();
    app.update_streaming_state("hello".to_string(), "wor".to_string(), 3, 120);
    assert_eq!(app.committed_text, "hello");
    assert_eq!(app.uncommitted_text, "wor");
    assert_eq!(app.segments_processed, 3);
    assert_eq!(app.avg_latency_ms, 120);
}

#[test]
fn typing_mode_cycles_back_to_auto_after_paste() {
    let mut app = App::new();
    app.typing_mode = ears::desktop::TypingMode::Paste;
    app.cycle_typing_mode();
    assert_eq!(app.typing_mode, ears::desktop::TypingMode::Auto);
    assert_eq!(app.logs.last().unwrap(), "Typing mode: Auto");
}

#[test]
fn help_overlay_swallows_other_keys() {
    let mut app = App::new();
    assert!(app.handle_key(key(Key::Char('?'))));
    assert!(app.help_overlay_open);
    let before_logs = app.logs.clone();
    assert!(app.handle_key(key(Key::Char('q'))));
    assert!(app.help_overlay_open);
    assert!(app.handle_key(key(Key::Tab)));
    assert_eq!(app.current_panel, Panel::Configuration);
    assert!(!app.vad_active);
    assert_eq!(app.logs, before_logs);
    assert!(app.handle_key(key(Key::Esc)));
    assert!(!app.help_overlay_open);
}

#[test]
fn settings_are_taken_as_given() {
    let mut s = ears::tui_app::AppSettings {
        server: "http://example.com:9000/".to_string(),
        device: "mic".to_string(),
        language: Some("no".to_string()),
        model: Some("large".to_string()),
        progressive_typing: true,
        auto_correction: false,
        auto_enter: false,
        save_to_clipboard: true,
        duck_enabled: true,
        duck_percent: 150,
        bash_mode: true,
        guided_grammar: Some("root ::= x".to_string()),
        cue_volume: 40,
        typing_mode: ears::desktop::TypingMode::Paste,
        text_filters: ears::text_filters::TextFilters::default(),
        profile: Some("groq".to_string()),
        available_profiles: vec!["groq".to_string()],
        external_vad_active: true,
        env_server: false,
        env_device: true,
        env_language: false,
        env_model: true,
    };
    s.text_filters.lowercase = true;
    let app = App::with_settings(s);
    assert_eq!(app.device, "mic");
    assert_eq!(app.model, "large");
    assert!(!app.auto_enter && app.save_to_clipboard && app.duck_enabled && app.bash_mode);
    assert_eq!(app.duck_percent, 150);
    assert_eq!(app.cue_volume, 40);
    assert_eq!(app.typing_mode, ears::desktop::TypingMode::Paste);
    assert!(app.text_filters.lowercase);
    assert_eq!(app.profile.as_deref(), Some("groq"));
    assert!(app.external_vad_active && app.env_device && app.env_model);
    assert_eq!(app.total_transcriptions, 0);
    assert!(!app.device_picker_open);
}

#[test]
fn key_actions_leave_other_settings_alone() {
    let mut app = App::new();
    let device = app.device.clone();
    let server = app.server.clone();
    let cue = app.cue_volume;
    let duck = app.duck_percent;
    app.handle_key(key(Key::Char('v')));
    assert!(app.vad_active);
    assert_eq!(app.current_panel, Panel::Configuration);
    assert_eq!((app.device.clone(), app.server.clone(), app.cue_volume, app.duck_percent), (device.clone(), server.clone(), cue, duck));
    app.handle_key(shift_key(Key::Char('L')));
    assert_eq!(app.language.as_deref(), Some("en"));
    assert!(app.vad_active);
    assert_eq!(app.duck_percent, duck);
    app.handle_key(key(Key::Char(']')));
    assert_eq!(app.duck_percent, duck + 5);
    assert_eq!(app.language.as_deref(), Some("en"));
    assert_eq!(app.cue_volume, cue);
    app.handle_key(shift_key(Key::Char('P')));
    assert_eq!(app.language.as_deref(), Some("en"));
    assert_eq!(app.duck_percent, duck + 5);
    assert_eq!(app.logs.last().unwrap(), "No named profiles found");
    let logs = app.logs.clone();
    app.handle_key(key(Key::Char('j')));
    assert_eq!(app.logs, logs);
    assert_eq!(app.current_panel, Panel::Configuration);
}

#[test]
fn engine_statistics_touch_only_the_statistics() {
    let mut app = App::new();
    app.handle_streaming_event(StreamingEvent::StatsUpdate { segments_processed: 7, avg_latency_ms: 120 });
    assert_eq!((app.segments_processed, app.avg_latency_ms), (7, 120));
    assert_eq!(app.total_transcriptions, 0);
    app.handle_streaming_event(StreamingEvent::TranscriptUpdate {
        committed: "hello".to_string(),
        uncommitted: " wor".to_string(),
    });
    assert_eq!((app.committed_text.as_str(), app.uncommitted_text.as_str()), ("hello", " wor"));
    assert_eq!((app.segments_processed, app.avg_latency_ms), (7, 120));
    assert!(app.take_effects().is_empty());
}

#[test]
fn a_click_performs_its_action_once_and_nothing_else() {
    let mut app = App::new();
    app.add_clickable_region(Rect { x: 0, y: 0, width: 10, height: 2 }, ClickAction::ToggleAutoEnter);
    app.add_clickable_region(Rect { x: 0, y: 0, width: 10, height: 2 }, ClickAction::ToggleDuck);
    let before_logs = app.logs.len();
    let auto_enter = app.auto_enter;
    let duck = app.duck_enabled;
    assert!(app.handle_mouse(true, 3, 1));
    assert_eq!(app.auto_enter, !auto_enter);
    assert_eq!(app.duck_enabled, duck);
    assert_eq!(app.logs.len(), before_logs + 1);
    assert_eq!(app.current_panel, Panel::Configuration);
    assert_eq!(app.take_effects(), vec![Effect::SaveConfig]);
    app.handle_mouse(true, 3, 5);
    assert_eq!(app.auto_enter, !auto_enter);
    assert_eq!(app.logs.len(), before_logs + 1);
}
