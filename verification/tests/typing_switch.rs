use ears::desktop::TypingMode;
use ears::typing_switch::{describe, effective_mode, enabled_from_stored, stored_form, TypingRequest};

#[test]
fn parses_verbs_and_args() {
    assert_eq!(TypingRequest::from_command("typing-off"), Some(TypingRequest::Off));
    assert_eq!(TypingRequest::from_arg("toggle"), Some(TypingRequest::Toggle));
    assert_eq!(TypingRequest::from_arg("status"), Some(TypingRequest::Status));
    assert_eq!(TypingRequest::from_arg("sideways"), None);
    assert_eq!(TypingRequest::from_command("toggle-auto-enter"), None);
    for r in [TypingRequest::On, TypingRequest::Off, TypingRequest::Toggle, TypingRequest::Status] {
        assert_eq!(TypingRequest::from_command(r.command()), Some(r));
    }
}

#[test]
fn apply_and_effective_mode() {
    assert!(TypingRequest::On.apply(false));
    assert!(!TypingRequest::Off.apply(true));
    assert!(TypingRequest::Toggle.apply(false));
    assert!(!TypingRequest::Toggle.apply(true));
    assert!(TypingRequest::Status.apply(true));
    assert!(!TypingRequest::Status.changes_state());
    assert_eq!(effective_mode(TypingMode::Wtype, true), TypingMode::Wtype);
    assert_eq!(effective_mode(TypingMode::Wtype, false), TypingMode::Disabled);
    assert_eq!(describe(false), "typing:off");
}

#[test]
fn stored_contents_default_to_on() {
    assert!(enabled_from_stored(None), "missing file means on");
    assert!(!enabled_from_stored(Some(stored_form(false))));
    assert_eq!(stored_form(false), "off\n");
    assert!(enabled_from_stored(Some(stored_form(true))));
    assert!(enabled_from_stored(Some("garbage")), "anything but off means on");
    assert!(!enabled_from_stored(Some("  off  ")));
    assert_eq!(describe(true), "typing:on");
}
