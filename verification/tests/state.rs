use ears::state::{parse_state, state_str, State, StateError, StateManager};

#[test]
fn test_state_transitions() {
    let mut manager = StateManager::new("/tmp/ears-test-state");
    assert_eq!(manager.current_state(), State::Idle);
    assert!(manager.transition(State::Recording).is_ok());
    assert_eq!(manager.current_state(), State::Recording);
    assert!(manager.transition(State::Transcribing).is_ok());
    assert_eq!(manager.current_state(), State::Transcribing);
    assert!(manager.transition(State::Idle).is_ok());
    assert_eq!(manager.current_state(), State::Idle);
}

#[test]
fn test_invalid_transitions() {
    let mut manager = StateManager::new("/tmp/ears-test-state");
    assert!(manager.transition(State::Transcribing).is_err());
    manager.transition(State::Recording).unwrap();
    assert!(manager.transition(State::Recording).is_err());
}

#[test]
fn test_recording_timeout() {
    let mut manager = StateManager::new("/tmp/ears-test-state");
    manager.set_max_recording_duration_ms(100);
    manager.transition(State::Recording).unwrap();
    let start = std::time::Instant::now();
    while start.elapsed() < std::time::Duration::from_millis(150) {}
    assert!(manager.check_recording_timeout());
    let result = manager.transition(State::Transcribing);
    assert!(matches!(result, Err(StateError::RecordingTimeout)));
    assert_eq!(manager.current_state(), State::Idle);
}

#[test]
fn test_emergency_stop() {
    let mut manager = StateManager::new("/tmp/ears-test-state");
    manager.transition(State::Recording).unwrap();
    assert!(manager.transition(State::Idle).is_ok());
    manager.transition(State::Recording).unwrap();
    manager.transition(State::Transcribing).unwrap();
    assert!(manager.transition(State::Idle).is_ok());
}

#[test]
fn test_vad_state_transitions() {
    let mut manager = StateManager::new("/tmp/ears-test-state");
    assert_eq!(manager.current_state(), State::Idle);
    assert!(manager.transition(State::VadActive).is_ok());
    assert_eq!(manager.current_state(), State::VadActive);
    assert!(manager.transition(State::Idle).is_ok());
    assert_eq!(manager.current_state(), State::Idle);
}

#[test]
fn test_invalid_vad_transitions() {
    let mut manager = StateManager::new("/tmp/ears-test-state");
    manager.transition(State::VadActive).unwrap();
    assert!(manager.transition(State::Recording).is_err());
    manager.transition(State::Idle).unwrap();
    manager.transition(State::Recording).unwrap();
    assert!(manager.transition(State::VadActive).is_err());
}

#[test]
fn test_load_state_missing_file() {
    let mut manager = StateManager::new("/tmp/ears-test-state");
    manager.load_state(None).unwrap();
    assert_eq!(manager.current_state(), State::Idle);
}

#[test]
fn test_load_state_corrupted() {
    let mut manager = StateManager::new("/tmp/ears-test-state");
    let result = manager.load_state(Some("garbage_data"));
    assert!(matches!(result, Err(StateError::CorruptedState)));
}

#[test]
fn test_load_state_all_states() {
    let cases = vec![
        ("idle", State::Idle),
        ("recording", State::Recording),
        ("transcribing", State::Transcribing),
        ("vad_active", State::VadActive),
    ];
    for (state_str, expected_state) in cases {
        let mut manager = StateManager::new("/tmp/ears-test-state");
        manager.load_state(Some(state_str)).unwrap();
        assert_eq!(manager.current_state(), expected_state, "Failed for state string: {}", state_str);
    }
}

#[test]
fn test_reconcile_stale_transcribing() {
    let mut manager = StateManager::new("/tmp/ears-test-state");
    manager.load_state(Some("transcribing")).unwrap();
    assert_eq!(manager.current_state(), State::Transcribing);
    let reconciled = manager.reconcile_state(|| Ok(false)).unwrap();
    assert!(reconciled);
    assert_eq!(manager.current_state(), State::Idle);
}

#[test]
fn test_reconcile_stale_recording() {
    let mut manager = StateManager::new("/tmp/ears-test-state");
    manager.load_state(Some("recording")).unwrap();
    let reconciled = manager.reconcile_state(|| Ok(false)).unwrap();
    assert!(reconciled);
    assert_eq!(manager.current_state(), State::Idle);
}

#[test]
fn test_reconcile_recording_alive() {
    let mut manager = StateManager::new("/tmp/ears-test-state");
    manager.load_state(Some("recording")).unwrap();
    let reconciled = manager.reconcile_state(|| Ok(true)).unwrap();
    assert!(!reconciled);
    assert_eq!(manager.current_state(), State::Recording);
}

#[test]
fn test_reconcile_idle_noop() {
    let mut manager = StateManager::new("/tmp/ears-test-state");
    let reconciled = manager.reconcile_state(|| Ok(false)).unwrap();
    assert!(!reconciled);
    assert_eq!(manager.current_state(), State::Idle);
}

#[test]
fn state_text_round_trips() {
    for s in [State::Idle, State::Recording, State::Transcribing, State::VadActive] {
        assert_eq!(parse_state(state_str(s)), Ok(s));
        assert_eq!(parse_state(&format!(" {}\n", state_str(s))), Ok(s));
    }
    assert_eq!(state_str(State::VadActive), "vad_active");
}

#[test]
fn reconcile_reports_probe_error() {
    let mut manager = StateManager::new("/tmp/ears-test-state");
    manager.load_state(Some("recording")).unwrap();
    let r = manager.reconcile_state(|| Err("boom".to_string()));
    assert_eq!(r, Err(StateError::Io("boom".to_string())));
    assert_eq!(manager.current_state(), State::Recording);
}

#[test]
fn invalid_transition_reports_states() {
    let mut manager = StateManager::new("/tmp/ears-test-state");
    assert_eq!(
        manager.transition(State::Transcribing),
        Err(StateError::InvalidTransition { from: State::Idle, to: State::Transcribing })
    );
}

#[test]
fn recording_times_out_only_past_the_deadline() {
    let mut mgr = StateManager::new("/tmp/ears-test-timeout");
    mgr.set_max_recording_duration_ms(1000);
    assert!(!mgr.recording_timed_out(5_000_000_000));
    mgr.transition(State::Recording).unwrap();
    assert!(!mgr.recording_timed_out(1_000_000_000));
    assert!(mgr.recording_timed_out(1_000_000_001));
    assert!(!mgr.check_recording_timeout());
    mgr.transition(State::Idle).unwrap();
    assert!(!mgr.recording_timed_out(5_000_000_000));
}

#[test]
fn a_fraction_of_a_millisecond_past_the_deadline_times_out() {
    let mut mgr = StateManager::new("/tmp/ears-test-timeout-fraction");
    mgr.set_max_recording_duration_ms(100);
    mgr.transition(State::Recording).unwrap();
    assert!(!mgr.recording_timed_out(100_000_000));
    assert!(mgr.recording_timed_out(100_400_000));
    assert!(mgr.recording_timed_out(u64::MAX));
}
