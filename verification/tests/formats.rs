use ears::config::{env_server, list_profiles, migrate_settings, profile_of_file_name, resolve_profile, stored_profile};
use ears::continuous_capture::decode_s16le;
use ears::provider::JsonValue;
use ears::session::check_recording;
use ears::tui_app::App;
use ears::tui_run::{default_export_name, model_from_listing, models_url, pipeline_action, typing_settings_changed, PipelineAction};
use ears::wav::wav_bytes;
use ears::ws_input::{frame_kind_of, text_frame, WsAction, WsFrame, WsSession, FLUSH_SAMPLES};
use ears::provider::parse_json_text;

#[test]
fn wav_files_have_a_header_and_round_trip() {
    let samples: Vec<i16> = vec![0, 1, -1, i16::MAX, i16::MIN, 1234, -4321];
    let bytes = wav_bytes(&samples);
    assert_eq!(bytes.len(), 44 + 2 * samples.len());
    assert_eq!(&bytes[0..4], b"RIFF");
    assert_eq!(u32::from_le_bytes([bytes[4], bytes[5], bytes[6], bytes[7]]), 36 + 14);
    assert_eq!(&bytes[8..16], b"WAVEfmt ");
    assert_eq!(u32::from_le_bytes([bytes[24], bytes[25], bytes[26], bytes[27]]), 16000);
    assert_eq!(u32::from_le_bytes([bytes[28], bytes[29], bytes[30], bytes[31]]), 32000);
    assert_eq!(&bytes[36..40], b"data");
    assert_eq!(u32::from_le_bytes([bytes[40], bytes[41], bytes[42], bytes[43]]), 14);
    assert_eq!(decode_s16le(&bytes[44..]), samples);
    let expected: Vec<u8> = samples.iter().flat_map(|s| s.to_le_bytes()).collect();
    assert_eq!(&bytes[44..], &expected[..]);
    assert_eq!(check_recording(true, bytes.len() as u64, &bytes[..12]), None);
    let empty = wav_bytes(&[]);
    assert_eq!(empty.len(), 44);
    assert!(check_recording(true, 44, &empty[..12]).is_some());
}

#[test]
fn websocket_session_protocol() {
    let mut s = WsSession::new();
    assert_eq!(s.on_frame(WsFrame::Binary(vec![1, 0])), WsAction::Ignore);
    assert_eq!(s.on_frame(WsFrame::Text { kind: Some("start".to_string()) }), WsAction::Ignore);
    assert!(s.active);
    assert_eq!(s.on_frame(WsFrame::Binary(vec![1, 0, 0xff, 0xff, 7])), WsAction::Forward(vec![1, -1]));
    assert_eq!(s.on_frame(WsFrame::Text { kind: Some("hello".to_string()) }), WsAction::Ignore);
    assert!(s.active);
    assert_eq!(s.on_frame(WsFrame::Control), WsAction::Ignore);
    assert_eq!(s.on_frame(WsFrame::Text { kind: Some("end".to_string()) }), WsAction::Flush(FLUSH_SAMPLES));
    assert!(!s.active);
    assert_eq!(s.on_frame(WsFrame::Binary(vec![1, 0])), WsAction::Ignore);
    assert_eq!(s.on_frame(WsFrame::Text { kind: None }), WsAction::Ignore);
    assert_eq!(s.on_frame(WsFrame::Close), WsAction::Close);
}

#[test]
fn text_frames_name_their_json_type() {
    assert_eq!(frame_kind_of(r#"{"type":"start","sample_rate":16000}"#), Some("start".to_string()));
    assert_eq!(frame_kind_of(r#" { "type" : "end" } "#), Some("end".to_string()));
    assert_eq!(frame_kind_of(r#"{"type":"hello"}"#), Some("hello".to_string()));
    assert_eq!(frame_kind_of(r#"{"type":5}"#), None);
    assert_eq!(frame_kind_of(r#"{"kind":"start"}"#), None);
    assert_eq!(frame_kind_of(r#"["start"]"#), None);
    assert_eq!(frame_kind_of("\"start\""), None);
    assert_eq!(frame_kind_of("start"), None);
    assert_eq!(frame_kind_of(r#"{"type":"start""#), None);
    assert_eq!(text_frame(r#"{"type":"end"}"#), WsFrame::Text { kind: Some("end".to_string()) });
    assert_eq!(text_frame("not json"), WsFrame::Text { kind: None });
}

#[test]
fn json_text_is_parsed_member_for_member() {
    assert!(parse_json_text("not json").is_none());
    assert_eq!(
        format!("{:?}", parse_json_text(r#"{"a":[1,true,null],"b":"x"}"#)),
        r#"Some(Object([("a", Array([Number("1"), Bool(true), Null])), ("b", Str("x"))]))"#
    );
}

#[test]
fn websocket_text_frames_drive_the_session() {
    let mut s = WsSession::new();
    assert_eq!(s.on_frame(text_frame(r#"{"type":"start"}"#)), WsAction::Ignore);
    assert!(s.active);
    assert_eq!(s.on_frame(WsFrame::Binary(vec![2, 0])), WsAction::Forward(vec![2]));
    assert_eq!(s.on_frame(text_frame("garbage")), WsAction::Ignore);
    assert!(s.active);
    assert_eq!(s.on_frame(text_frame(r#"{"type":"end"}"#)), WsAction::Flush(FLUSH_SAMPLES));
    assert!(!s.active);
}

#[test]
fn profiles_resolve_in_order() {
    assert_eq!(resolve_profile(Some("cli"), Some("env"), Some("stored")), Some("cli".to_string()));
    assert_eq!(resolve_profile(None, Some("env"), Some("stored")), Some("env".to_string()));
    assert_eq!(resolve_profile(None, Some("  "), Some(" stored\n")), Some("stored".to_string()));
    assert_eq!(resolve_profile(None, None, Some("\n")), None);
    assert_eq!(resolve_profile(None, None, None), None);
    assert_eq!(stored_profile(Some(" groq \n")), Some("groq".to_string()));
    assert_eq!(stored_profile(None), None);
}

#[test]
fn profile_files_are_listed_sorted() {
    assert_eq!(profile_of_file_name("config.groq.toml"), Some("groq".to_string()));
    assert_eq!(profile_of_file_name("config.toml"), None);
    assert_eq!(profile_of_file_name("config..toml"), Some(String::new()));
    assert_eq!(profile_of_file_name("other.groq.toml"), None);
    let names: Vec<String> = ["profile", "config.zeta.toml", "config.toml", "config.alpha.toml", "config.Beta.toml", "config.x.json"]
        .iter()
        .map(|s| s.to_string())
        .collect();
    assert_eq!(list_profiles(&names), vec!["Beta".to_string(), "alpha".to_string(), "zeta".to_string()]);
}

#[test]
fn environment_server_must_parse() {
    assert_eq!(env_server("http://example.com:9000"), Ok("http://example.com:9000/".to_string()));
    assert_eq!(env_server("not a url"), Err("Invalid EARS_SERVER URL: not a url".to_string()));
}

#[test]
fn old_layout_is_migrated() {
    let m = migrate_settings(Some(" http://10.0.0.2:8178 \n"), Some("  "), Some("no\n"), None, Some("large"), false);
    assert_eq!(m.server, Some("http://10.0.0.2:8178/".to_string()));
    assert_eq!(m.device, None);
    assert_eq!(m.language, Some("no".to_string()));
    assert_eq!(m.api_key, None);
    assert_eq!(m.model, Some("large".to_string()));
    assert!(m.any);
    let none = migrate_settings(Some("::bad::"), None, None, None, None, false);
    assert_eq!(none.server, None);
    assert!(!none.any);
    assert!(migrate_settings(None, None, None, None, None, true).any);
}

#[test]
fn pipeline_follows_the_interface() {
    assert_eq!(pipeline_action(true, false), PipelineAction::Start);
    assert_eq!(pipeline_action(false, true), PipelineAction::Stop);
    assert_eq!(pipeline_action(true, true), PipelineAction::Keep);
    assert_eq!(pipeline_action(false, false), PipelineAction::Keep);
    let mut app = App::new();
    app.vad_active = true;
    app.on_pipeline_failed("no microphone");
    assert!(!app.vad_active);
    assert_eq!(app.logs.last().unwrap(), "Failed to start VAD: no microphone");
    app.is_speaking = true;
    app.on_pipeline_stopped();
    assert!(!app.is_speaking);
    assert_eq!(app.logs.last().unwrap(), "VAD pipeline stopped");
    app.on_pipeline_started();
    assert_eq!(app.logs.last().unwrap(), "VAD pipeline started");
    assert!(!typing_settings_changed(&app, app.progressive_typing, app.auto_correction));
    assert!(typing_settings_changed(&app, !app.progressive_typing, app.auto_correction));
}

#[test]
fn model_listing_and_exports() {
    assert_eq!(models_url("http://h:1//"), "http://h:1/v1/models");
    assert_eq!(models_url("http://h:1"), "http://h:1/v1/models");
    let listing = JsonValue::Object(vec![(
        "data".to_string(),
        JsonValue::Array(vec![
            JsonValue::Object(vec![("id".to_string(), JsonValue::Str("whisper-1".to_string()))]),
            JsonValue::Object(vec![("id".to_string(), JsonValue::Str("other".to_string()))]),
        ]),
    )]);
    assert_eq!(model_from_listing(&listing), Some("whisper-1".to_string()));
    assert_eq!(model_from_listing(&JsonValue::Object(vec![("data".to_string(), JsonValue::Array(vec![]))])), None);
    assert_eq!(model_from_listing(&JsonValue::Null), None);
    assert_eq!(default_export_name(1700000000), "ears-1700000000.log");
    let mut app = App::new();
    app.logs = vec!["a".to_string(), "b".to_string()];
    app.selected_log = 0;
    assert_eq!(app.export_content(), "a\nb");
    app.on_export_written("/tmp/x.log", 2);
    assert_eq!(app.logs.last().unwrap(), "Logs exported to: /tmp/x.log (2 entries)");
    assert_eq!(app.selected_log, 0);
    app.on_export_failed(true, "denied");
    assert_eq!(app.logs.last().unwrap(), "Export failed (mkdir): denied");
    app.on_export_failed(false, "full");
    assert_eq!(app.logs.last().unwrap(), "Export failed: full");
}
