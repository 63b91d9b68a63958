use ears::streaming::{common_prefix, LocalAgreementPolicy, StreamingConfig, StreamingError};

#[test]
fn test_common_prefix() {
    assert_eq!(common_prefix("hello", "hello"), "hello");
    assert_eq!(common_prefix("hello", "help"), "hel");
    assert_eq!(common_prefix("hello", "world"), "");
    assert_eq!(common_prefix("", "hello"), "");
    assert_eq!(common_prefix("hello", ""), "");
}

#[test]
fn test_local_agreement_basic() {
    let mut policy = LocalAgreementPolicy::new(2);

    let (committed, uncommitted) = policy.process("Hello".to_string());
    assert_eq!(committed, "");
    assert_eq!(uncommitted, "Hello");

    let (committed, uncommitted) = policy.process("Hello wo".to_string());
    assert_eq!(committed, "Hello");
    assert_eq!(uncommitted, " wo");

    let (committed, uncommitted) = policy.process("Hello world".to_string());
    assert_eq!(committed, " wo");
    assert_eq!(uncommitted, "rld");

    let (committed, uncommitted) = policy.process("Hello world".to_string());
    assert_eq!(committed, "rld");
    assert_eq!(uncommitted, "");

    assert_eq!(policy.committed(), "Hello world");
}

#[test]
fn test_local_agreement_correction() {
    let mut policy = LocalAgreementPolicy::new(2);
    policy.process("Hello word".to_string());
    let (committed, _) = policy.process("Hello word".to_string());
    assert_eq!(committed, "Hello word");
    let (committed, uncommitted) = policy.process("Hello world".to_string());
    assert_eq!(committed, "");
    assert_eq!(uncommitted, "ld");
}

#[test]
fn test_local_agreement_reset() {
    let mut policy = LocalAgreementPolicy::new(2);
    policy.process("Hello".to_string());
    policy.process("Hello world".to_string());
    assert!(!policy.committed().is_empty());
    policy.reset();
    assert_eq!(policy.committed(), "");
    assert_eq!(policy.history_len(), 0);
}

#[test]
fn test_streaming_config_default() {
    let config = StreamingConfig::default();
    assert_eq!(config.chunk_size_ms, 500);
    assert_eq!(config.buffer_size_seconds, 10);
    assert_eq!(config.agreement_threshold, 2);
    assert!(!config.progressive_typing);
    assert!(!config.auto_correction);
}

#[test]
fn test_common_prefix_multibyte() {
    assert_eq!(common_prefix("café", "cafétéria"), "café");
    assert_eq!(common_prefix("cafétéria", "café"), "café");
    assert_eq!(common_prefix("日本語", "日本人"), "日本");
    assert_eq!(common_prefix("日本語", "中国語"), "");
}

#[test]
fn test_local_agreement_empty_transcripts() {
    let mut policy = LocalAgreementPolicy::new(2);
    let (committed, uncommitted) = policy.process(String::new());
    assert_eq!(committed, "");
    assert_eq!(uncommitted, "");
    let (committed, uncommitted) = policy.process(String::new());
    assert_eq!(committed, "");
    assert_eq!(uncommitted, "");
}

#[test]
fn test_local_agreement_n_equals_1() {
    let mut policy = LocalAgreementPolicy::new(1);
    let (committed, uncommitted) = policy.process("Hello".to_string());
    assert_eq!(committed, "Hello");
    assert_eq!(uncommitted, "");
    let (committed, uncommitted) = policy.process("Hello world".to_string());
    assert_eq!(committed, " world");
    assert_eq!(uncommitted, "");
    assert_eq!(policy.committed(), "Hello world");
}

#[test]
fn test_local_agreement_n_equals_3() {
    let mut policy = LocalAgreementPolicy::new(3);
    let (committed, _) = policy.process("Hello".to_string());
    assert_eq!(committed, "");
    let (committed, _) = policy.process("Hello world".to_string());
    assert_eq!(committed, "");
    let (committed, uncommitted) = policy.process("Hello world!".to_string());
    assert_eq!(committed, "Hello");
    assert_eq!(uncommitted, " world!");
}

#[test]
fn local_agreement_zero_threshold_behaves_as_one() {
    let mut policy = LocalAgreementPolicy::new(0);
    let (committed, uncommitted) = policy.process("ok".to_string());
    assert_eq!(committed, "ok");
    assert_eq!(uncommitted, "");
}

#[test]
fn local_agreement_committed_plus_pending_is_transcript() {
    let mut policy = LocalAgreementPolicy::new(2);
    policy.process("the quick brown".to_string());
    let (_, pending) = policy.process("the quick fox".to_string());
    assert_eq!(format!("{}{}", policy.committed(), pending), "the quick fox");
    assert_eq!(policy.committed(), "the quick ");
}

#[test]
fn local_agreement_window_holds_last_n() {
    let mut policy = LocalAgreementPolicy::new(2);
    policy.process("abc".to_string());
    policy.process("abd".to_string());
    policy.process("xyz".to_string());
    assert_eq!(policy.history_len(), 2);
    assert_eq!(policy.committed(), "");
    let (newly, _) = policy.process("xyz".to_string());
    assert_eq!(newly, "xyz");
}

#[test]
fn local_agreement_multibyte_commit() {
    let mut policy = LocalAgreementPolicy::new(2);
    policy.process("日本語です".to_string());
    let (newly, pending) = policy.process("日本人です".to_string());
    assert_eq!(newly, "日本");
    assert_eq!(pending, "人です");
}

#[test]
fn streaming_error_messages() {
    assert_eq!(StreamingError::BufferOverflow.message(), "Audio buffer overflow");
    assert_eq!(StreamingError::BackendError("timeout".to_string()).message(), "Transcription backend error: timeout");
    assert_eq!(StreamingError::VadError("model".to_string()).message(), "VAD error: model");
}

#[test]
fn single_agreement_splits_at_a_character_boundary() {
    let mut p = LocalAgreementPolicy::new(1);
    assert_eq!(p.process("ab".to_string()), ("ab".to_string(), "".to_string()));
    let (newly, pending) = p.process("日".to_string());
    assert_eq!(newly, "日");
    assert_eq!(pending, "");
    assert_eq!(p.committed(), "日");
    assert_eq!(p.process("日本".to_string()), ("本".to_string(), "".to_string()));
    assert_eq!(p.process("日".to_string()), ("".to_string(), "".to_string()));
}
