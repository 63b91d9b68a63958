use ears::continuous_capture::{decode_s16le, reader_exit_status, CaptureState, CaptureStatus, ContinuousCaptureConfig};
use ears::recording::{has_audio_data, recorder_exit_ok, validate_recording_size, RecordingConfig, RecordingFileError};

#[test]
fn test_continuous_capture_config_default() {
    let config = ContinuousCaptureConfig::default();
    assert_eq!(config.device, "default");
    assert_eq!(config.sample_rate, 16000);
    assert_eq!(config.chunk_size, 1600);
}

#[test]
fn test_default_recording_config() {
    let config = RecordingConfig::default();
    assert_eq!(config.sample_rate, 16000);
    assert_eq!(config.channels, 1);
    assert_eq!(config.format, "s16");
    assert_eq!(config.timeout_secs, 120);
}

#[test]
fn decodes_little_endian_samples_and_drops_odd_byte() {
    assert_eq!(decode_s16le(&[0x01, 0x00, 0xff, 0xff, 0x00, 0x80, 0x07]), vec![1, -1, -32768]);
    assert!(decode_s16le(&[]).is_empty());
}

#[test]
fn reader_exit_reports() {
    assert_eq!(reader_exit_status(1, 2, true, Some("eof".to_string()), None), None);
    assert_eq!(reader_exit_status(2, 2, false, Some("eof".to_string()), None), Some(CaptureStatus::Idle));
    assert_eq!(reader_exit_status(2, 2, true, None, None), Some(CaptureStatus::Idle));
    assert_eq!(
        reader_exit_status(2, 2, true, Some("eof".to_string()), Some("1".to_string())),
        Some(CaptureStatus::Stopped { reason: "eof (pw-record exit: 1)".to_string() })
    );
    assert!(CaptureStatus::Running.is_running());
    assert!(!CaptureStatus::Idle.is_running());
}

#[test]
fn recording_file_checks() {
    assert_eq!(validate_recording_size(false, 0), Err(RecordingFileError::Missing));
    assert_eq!(validate_recording_size(true, 0), Err(RecordingFileError::Empty));
    assert_eq!(validate_recording_size(true, 10), Ok(()));
    assert!(!has_audio_data(44));
    assert!(has_audio_data(45));
    assert!(recorder_exit_ok(false, Some(143)));
    assert!(recorder_exit_ok(false, Some(124)));
    assert!(!recorder_exit_ok(false, Some(1)));
    assert!(recorder_exit_ok(true, None));
}

#[test]
fn capture_state_follows_starts_stops_and_reader_ends() {
    let mut st = CaptureState::new();
    assert!(st.should_start());
    assert_eq!(st.started(), (1, None));
    assert!(!st.should_start());
    assert_eq!(st.status, CaptureStatus::Running);
    // The recorder dies on its own: the reader reaps it and reports why.
    assert!(st.reader_reaps(1));
    assert_eq!(
        st.reader_exit(1, Some("pw-record closed its output (EOF)".to_string()), Some("exit status: 1".to_string())),
        Some("pw-record closed its output (EOF) (pw-record exit: exit status: 1)".to_string())
    );
    assert!(matches!(st.status, CaptureStatus::Stopped { .. }));
    assert!(st.should_start());
    // A restart, then a stale reader of the first generation: nothing changes.
    assert_eq!(st.started(), (2, None));
    assert!(!st.reader_reaps(1));
    assert_eq!(st.reader_exit(1, Some("late".to_string()), None), None);
    assert_eq!(st.status, CaptureStatus::Running);
    assert_eq!(st.child, Some(2));
    // A requested stop: the recorder is reaped by the owner and the end is quiet.
    assert_eq!(st.stop(), Some(2));
    assert_eq!(st.status, CaptureStatus::Idle);
    assert!(!st.reader_reaps(2));
    assert_eq!(st.reader_exit(2, Some("pw-record closed its output (EOF)".to_string()), None), None);
    assert_eq!(st.status, CaptureStatus::Idle);
}
