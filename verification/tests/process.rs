use ears::process::{stop_step, ProcessError, ProcessManager, StopStep};

fn manager() -> ProcessManager {
    ProcessManager::new("/tmp/ears-test.pid", 120)
}

#[test]
fn test_pid_file_operations() {
    let m = manager();
    assert_eq!(m.read_pid(None).unwrap(), None);
    assert_eq!(m.read_pid(Some(&12345u32.to_string())).unwrap(), Some(12345));
    assert_eq!(m.read_pid(Some(" 42\n")).unwrap(), Some(42));
    assert_eq!(m.read_pid(Some("+7")).unwrap(), Some(7));
    assert_eq!(m.read_pid(Some("abc")), Err(ProcessError::InvalidPid));
    assert_eq!(m.read_pid(Some("")), Err(ProcessError::InvalidPid));
    assert_eq!(m.read_pid(Some("4294967296")), Err(ProcessError::InvalidPid));
    assert_eq!(m.read_pid(Some("4294967295")).unwrap(), Some(u32::MAX));
    assert_eq!(m.pid_file_path(), "/tmp/ears-test.pid");
}

#[test]
fn test_is_recording_alive() {
    let m = manager();
    assert!(!m.is_recording_alive(None, |_| true).unwrap());
    assert!(m.is_recording_alive(Some("100"), |p| p == 100).unwrap());
    assert!(!m.is_recording_alive(Some("999999"), |p| p == 100).unwrap());
    assert!(m.is_recording_alive(Some("x"), |_| true).is_err());
}

#[test]
fn test_cleanup_stale_pid() {
    let m = manager();
    assert!(m.cleanup_stale(Some("999999"), |_| false).unwrap());
    assert!(!m.cleanup_stale(Some("1"), |_| true).unwrap());
    assert!(!m.cleanup_stale(None, |_| false).unwrap());
}

#[test]
fn stop_protocol_escalates() {
    assert_eq!(stop_step(0, false), StopStep::Finish);
    assert_eq!(stop_step(0, true), StopStep::Terminate);
    assert_eq!(stop_step(5, true), StopStep::Wait);
    assert_eq!(stop_step(10, true), StopStep::Kill);
    assert_eq!(stop_step(12, true), StopStep::Wait);
    assert_eq!(stop_step(15, true), StopStep::GiveUp);
    assert_eq!(stop_step(15, false), StopStep::Finish);
    assert_eq!(manager().stop_start(None, true), Err(ProcessError::ProcessNotFound));
    assert_eq!(manager().stop_start(Some(3), true), Ok(StopStep::Terminate));
}

#[test]
fn recording_arguments() {
    let args = manager().recording_args("mic", "/tmp/a.wav");
    assert_eq!(
        args,
        vec!["120", "pw-record", "--target", "mic", "--rate", "16000", "--channels", "1", "--format", "s16", "/tmp/a.wav"]
    );
}
