//! Recording configuration and the rules for judging a finished recording.
use vstd::prelude::*;

verus! {

/// Audio recording format configuration.
#[derive(Debug, Clone)]
pub struct RecordingConfig {
    /// Sample rate in Hz (16 kHz for speech recognition).
    pub sample_rate: u32,
    /// Number of channels (1 = mono, 2 = stereo).
    pub channels: u8,
    /// Audio format (e.g. `s16` for signed 16-bit PCM).
    pub format: String,
    /// Maximum recording duration in seconds.
    pub timeout_secs: u32,
}

impl Default for RecordingConfig {
    fn default() -> (r: Self)
        ensures
            r.sample_rate == 16000,
            r.channels == 1,
            r.format@ == "s16"@,
            r.timeout_secs == 120,
    {
        RecordingConfig { sample_rate: 16000, channels: 1, format: "s16".to_string(), timeout_secs: 120 }
    }
}

/// Whether a stopped recorder exited acceptably: success, terminated by
/// SIGTERM (exit code 143), or ended by `timeout` (exit code 124).
pub fn recorder_exit_ok(success: bool, code: Option<i32>) -> (r: bool)
    ensures
        r == (success || code == Some(143i32) || code == Some(124i32)),
{
    success || match code {
        Some(c) => c == 143 || c == 124,
        None => false,
    }
}

/// Errors about a recording file.
#[derive(Debug, Clone, PartialEq, Eq)]
pub enum RecordingFileError {
    /// The file does not exist.
    Missing,
    /// The file is empty.
    Empty,
}

/// Judges a recording file by whether it exists and its length in bytes.
pub fn validate_recording_size(exists: bool, len: u64) -> (r: Result<(), RecordingFileError>)
    ensures
        !exists ==> r == Err::<(), RecordingFileError>(RecordingFileError::Missing),
        exists && len == 0 ==> r == Err::<(), RecordingFileError>(RecordingFileError::Empty),
        exists && len > 0 ==> r == Ok::<(), RecordingFileError>(()),
{
    if !exists {
        Err(RecordingFileError::Missing)
    } else if len == 0 {
        Err(RecordingFileError::Empty)
    } else {
        Ok(())
    }
}

/// Size in bytes of a standard PCM WAV header: a file no larger holds no audio.
pub const WAV_HEADER_SIZE: u64 = 44;

/// Whether an audio file of `len` bytes holds audio data beyond the header.
pub fn has_audio_data(len: u64) -> (r: bool)
    ensures
        r == (len > WAV_HEADER_SIZE),
{
    len > WAV_HEADER_SIZE
}

} // verus!
