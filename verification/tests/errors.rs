use ears::config::ConfigError;
use ears::continuous_capture::ContinuousCaptureError;
use ears::lock::LockError;
use ears::process::ProcessError;
use ears::progressive_typing::ProgressiveTypingError;
use ears::provider::ProviderError;
use ears::state::{State, StateError};
use ears::streaming_engine::StreamingEngineError;
use ears::vad::VadError;
use ears::whisper::WhisperError;

#[test]
fn whisper_error_messages() {
    assert_eq!(
        WhisperError::ConnectionError("refused".to_string()).message(),
        "Failed to connect to whisper server: refused"
    );
    assert_eq!(WhisperError::EmptyTranscription.message(), "Server returned empty transcription");
}

#[test]
fn state_error_messages() {
    let e = StateError::InvalidTransition { from: State::Recording, to: State::VadActive };
    assert_eq!(e.message(), "Invalid state transition from Recording to VadActive");
    assert_eq!(StateError::CorruptedState.message(), "State file corrupted");
    assert_eq!(StateError::Io("denied".to_string()).message(), "IO error: denied");
}

#[test]
fn process_and_lock_error_messages() {
    assert_eq!(ProcessError::InvalidPid.message(), "Invalid PID in file");
    assert_eq!(ProcessError::SignalFailed("EPERM".to_string()).message(), "Failed to signal process: EPERM");
    assert_eq!(LockError::LockHeld.message(), "Failed to acquire lock: another instance is running");
}

#[test]
fn config_and_provider_error_messages() {
    assert_eq!(
        ConfigError::InvalidScheme("ftp".to_string()).message(),
        "Invalid server URL scheme: ftp (must be http or https)"
    );
    assert_eq!(ConfigError::EmptyDevice.message(), "Device name cannot be empty");
    assert_eq!(ProviderError::IndexNotFound(3).message(), "Array index 3 not found in response");
    assert_eq!(
        ProviderError::InsecureHttp("example.com".to_string()).message(),
        "HTTPS required for remote URLs (got HTTP for example.com)"
    );
    assert_eq!(ProviderError::FieldNotFound("text".to_string()).message(), "Field 'text' not found in response");
}

#[test]
fn engine_error_messages() {
    assert_eq!(StreamingEngineError::NotRunning.message(), "Engine not running");
    assert_eq!(VadError::ModelError("onnx".to_string()).message(), "VAD model error: onnx");
    assert_eq!(
        ProgressiveTypingError::TextInputError("wtype".to_string()).message(),
        "Text input error: wtype"
    );
    assert_eq!(ContinuousCaptureError::ProcessDied.message(), "Audio capture process died");
}
