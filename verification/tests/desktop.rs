use ears::desktop::{
    typing_timeout_ms, wtype_args, AudioFeedback, KeyboardLayout, Notifications, TextInput,
    TypingBackend, TypingMode, Urgency,
};
use std::time::Duration;

#[test]
fn test_typing_timeout_scales_with_length() {
    assert!(typing_timeout_ms("") < typing_timeout_ms(&"a".repeat(500)));
    assert_eq!(Duration::from_millis(typing_timeout_ms("")), Duration::from_secs(5));
}

#[test]
fn typing_timeout_exact_value() {
    assert_eq!(typing_timeout_ms("abc"), 5060);
    assert_eq!(typing_timeout_ms("ææ"), 5040);
}

#[test]
fn test_urgency_conversion() {
    assert_eq!(Urgency::Low.as_str(), "low");
    assert_eq!(Urgency::Normal.as_str(), "normal");
    assert_eq!(Urgency::Critical.as_str(), "critical");
}

#[test]
fn notification_arguments() {
    assert_eq!(Notifications::info("hello"), vec!["-u", "low", "-a", "ears", "hello"]);
    assert_eq!(Notifications::warn("careful"), vec!["-u", "normal", "-a", "ears", "careful"]);
    assert_eq!(Notifications::error("bad"), vec!["-u", "critical", "-a", "ears", "bad"]);
}

#[test]
fn test_parse_dconf_mru_sources_valid() {
    let sources = "[('xkb', 'no'), ('xkb', 'us')]";
    let result = KeyboardLayout::parse_dconf_mru_sources(sources);
    assert_eq!(result, Some("no".to_string()));
}

#[test]
fn test_parse_dconf_mru_sources_single() {
    let sources = "[('xkb', 'us')]";
    let result = KeyboardLayout::parse_dconf_mru_sources(sources);
    assert_eq!(result, Some("us".to_string()));
}

#[test]
fn test_parse_dconf_mru_sources_invalid() {
    let sources = "invalid data";
    let result = KeyboardLayout::parse_dconf_mru_sources(sources);
    assert_eq!(result, None);
}

#[test]
fn test_parse_hyprctl_devices_valid() {
    let json = r#"{
            "keyboards": [
                {
                    "address": "0x1234",
                    "name": "AT Translated Set 2 keyboard",
                    "active_keymap": "English (US)",
                    "main": true
                }
            ]
        }"#;
    let result = KeyboardLayout::parse_hyprctl_devices(json);
    assert_eq!(result, Some("us".to_string()));
}

#[test]
fn test_parse_hyprctl_devices_norwegian() {
    let json = r#"{
            "keyboards": [
                {
                    "name": "keyboard",
                    "active_keymap": "Norwegian"
                }
            ]
        }"#;
    let result = KeyboardLayout::parse_hyprctl_devices(json);
    assert_eq!(result, Some("no".to_string()));
}

#[test]
fn parse_hyprctl_devices_without_keyboards() {
    assert_eq!(KeyboardLayout::parse_hyprctl_devices("{\"mice\": []}"), None);
}

#[test]
fn test_keymap_name_to_layout() {
    assert_eq!(
        KeyboardLayout::keymap_name_to_layout("English (US)"),
        Some("us".to_string())
    );
    assert_eq!(
        KeyboardLayout::keymap_name_to_layout("English (UK)"),
        Some("gb".to_string())
    );
    assert_eq!(
        KeyboardLayout::keymap_name_to_layout("Norwegian"),
        Some("no".to_string())
    );
    assert_eq!(
        KeyboardLayout::keymap_name_to_layout("German"),
        Some("de".to_string())
    );
    assert_eq!(
        KeyboardLayout::keymap_name_to_layout("French"),
        Some("fr".to_string())
    );
}

#[test]
fn test_layout_to_language() {
    assert_eq!(
        KeyboardLayout::layout_to_language("us"),
        Some("en".to_string())
    );
    assert_eq!(
        KeyboardLayout::layout_to_language("gb"),
        Some("en".to_string())
    );
    assert_eq!(
        KeyboardLayout::layout_to_language("no"),
        Some("no".to_string())
    );
    assert_eq!(
        KeyboardLayout::layout_to_language("de"),
        Some("de".to_string())
    );
    assert_eq!(KeyboardLayout::layout_to_language("unknown"), None);
}

#[test]
fn detect_language_prefers_hyprland() {
    assert_eq!(
        KeyboardLayout::detect_language(Some("no"), Some("us")),
        Some("no".to_string())
    );
    assert_eq!(
        KeyboardLayout::detect_language(None, Some("us")),
        Some("en".to_string())
    );
    assert_eq!(KeyboardLayout::detect_language(None, None), None);
}

#[test]
fn typing_mode_cycles_through_all_modes() {
    let m = TypingMode::default();
    assert_eq!(m, TypingMode::Auto);
    assert_eq!(m.next(), TypingMode::Wtype);
    assert_eq!(m.next().next(), TypingMode::Paste);
    assert_eq!(m.next().next().next(), TypingMode::Auto);
    assert_eq!(TypingMode::Disabled.next(), TypingMode::Auto);
}

#[test]
fn cue_volume_is_capped() {
    let mut fb = AudioFeedback::new();
    fb.set_volume(250);
    assert_eq!(fb.get_volume(), 100);
    let cue = fb.beep_start().unwrap();
    assert_eq!(cue.name, "start");
    assert_eq!(cue.pa_volume, 65536);
    fb.set_volume(0);
    assert!(fb.beep_done().is_none());
    fb.set_volume(50);
    assert_eq!(fb.beep_error().unwrap().pa_volume, 32768);
}

#[test]
fn auto_typing_probes_once_and_caches() {
    let mut input = TextInput::new();
    assert_eq!(input.type_text(TypingMode::Auto, || true), Some(TypingBackend::Wtype));
    assert_eq!(input.cached_capability(), Some(true));
    assert_eq!(input.type_text(TypingMode::Auto, || false), Some(TypingBackend::Wtype));
    input.typing_failed(TypingMode::Auto);
    assert_eq!(input.cached_capability(), None);
    assert_eq!(input.type_text(TypingMode::Auto, || false), Some(TypingBackend::Paste));
    assert_eq!(input.type_text(TypingMode::Disabled, || true), None);
    input.refresh_capabilities();
    assert_eq!(input.cached_capability(), None);
}

#[test]
fn wtype_arguments() {
    assert_eq!(wtype_args("hi there"), vec!["-d", "4", "--", "hi there"]);
}
