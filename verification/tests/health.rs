use ears::health::{process_start_ticks, HealthSnapshot, Stage};

#[test]
fn parses_process_identity_with_spaces_and_parentheses() {
    let stat = format!("123 (ears (test)) S {} 9876 0", vec!["0"; 18].join(" "));
    assert_eq!(process_start_ticks(&stat).unwrap(), "9876");
    assert!(process_start_ticks("bad").is_none());
}

#[test]
fn start_ticks_must_be_numeric() {
    let stat = format!("1 (x) S {} abc 0", vec!["0"; 18].join(" "));
    assert!(process_start_ticks(&stat).is_none());
}

fn snapshot(now: u64) -> HealthSnapshot {
    HealthSnapshot::new(1, "9".to_string(), "boot".to_string(), "1-0".to_string(), now)
}

#[test]
fn silence_is_live_but_capture_failure_and_slow_work_are_distinct() {
    let mut s = snapshot(0);
    s.captured(1600, 1000);
    s.frame(0, false, false, 1000);
    assert_eq!(s.problem(2000), None);
    assert_eq!(s.problem(4500), Some("no audio arriving"));
    s.capture_stopped("device unplugged");
    assert_eq!(s.problem(1500), Some("capture stopped"));
    let mut t = snapshot(0);
    t.captured(1600, 9000);
    let prev = t.enter(Stage::Transcribing, 1000);
    assert_eq!(prev, Stage::Listening);
    assert_eq!(t.problem(9000), Some("slow pipeline stage"));
    t.enter(prev, 9000);
    t.frame(0, false, false, 9000);
    assert_eq!(t.problem(9000), None);
    t.enter(Stage::Stopped, 9000);
    assert_eq!(t.problem(9000), Some("pipeline stopped"));
}

#[test]
fn backlog_and_detector_stall() {
    let mut s = snapshot(0);
    s.captured(16000 * 3, 100);
    let p = s.published(100);
    assert_eq!(p.audio_backlog_ms, 3000);
    assert_eq!(p.updated_monotonic_ms, 100);
    assert_eq!(p.problem(100), Some("audio backlog"));
    s.frame(0, false, true, 3500);
    assert_eq!(s.rejected_candidates, 1);
    assert_eq!(s.processed_frames, 1);
    assert_eq!(s.problem(3000), None);
    let mut t = snapshot(0);
    t.captured(10, 5000);
    assert_eq!(t.problem(5000), Some("voice detection stalled"));
}

#[test]
fn capture_error_is_truncated() {
    let mut s = snapshot(0);
    s.capture_stopped(&"x".repeat(300));
    assert_eq!(s.capture_error.unwrap().chars().count(), 256);
}
