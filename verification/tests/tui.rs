use ears::tui::{LogFilter, Panel, ThemeName, TypingSettings};

#[test]
fn test_log_filter_matches() {
    assert!(LogFilter::All.matches("anything"));
    assert!(LogFilter::Errors.matches("Connection failed"));
    assert!(LogFilter::Errors.matches("Streaming error: timeout"));
    assert!(!LogFilter::Errors.matches("Application started"));
    assert!(LogFilter::Warnings.matches("server offline"));
    assert!(!LogFilter::Warnings.matches("Configuration saved"));
}

#[test]
fn log_filter_cycle_and_labels() {
    assert_eq!(LogFilter::All.next(), LogFilter::Errors);
    assert_eq!(LogFilter::Errors.next(), LogFilter::Warnings);
    assert_eq!(LogFilter::Warnings.next(), LogFilter::All);
    assert_eq!(LogFilter::Warnings.label(), "Warnings");
    assert!(LogFilter::Warnings.matches("WARNING: low disk"));
    assert!(!LogFilter::Errors.matches("WARNING: low disk"));
}

#[test]
fn panel_navigation() {
    assert_eq!(Panel::Configuration.next(), Panel::Logs);
    assert_eq!(Panel::Logs.next(), Panel::LiveTranscription);
    assert_eq!(Panel::LiveTranscription.next(), Panel::Configuration);
    assert_eq!(Panel::Configuration.prev(), Panel::LiveTranscription);
    assert_eq!(Panel::LiveTranscription.title(), "Live");
}

#[test]
fn theme_names() {
    assert_eq!(ThemeName::parse("DARK"), Some(ThemeName::Dark));
    assert_eq!(ThemeName::parse("light"), Some(ThemeName::Light));
    assert_eq!(ThemeName::parse("solarized"), None);
    assert_eq!(ThemeName::Dark.next(), ThemeName::Light);
    assert_eq!(ThemeName::Light.label(), "light");
}

#[test]
fn typing_settings_default_on() {
    let s = TypingSettings::default();
    assert!(s.progressive_typing);
    assert!(s.auto_correction);
}
