//! Errors of the single-instance file lock.
use vstd::prelude::*;

verus! {

/// Errors that can occur during lock operations.
#[derive(Debug, Clone, PartialEq, Eq)]
pub enum LockError {
    /// An I/O error, with its message.
    Io(String),
    /// Another instance holds the lock.
    LockHeld,
    /// The `flock` call failed.
    FlockFailed(String),
}

impl LockError {
    /// The error's message.
    pub fn message(&self) -> (r: String)
        ensures
            r@ == match *self {
                LockError::Io(m) => "IO error: "@ + m@,
                LockError::LockHeld => "Failed to acquire lock: another instance is running"@,
                LockError::FlockFailed(m) => "flock system call failed: "@ + m@,
            },
    {
        match self {
            LockError::Io(m) => crate::text::concat_str("IO error: ", m.as_str()),
            LockError::LockHeld => "Failed to acquire lock: another instance is running".to_string(),
            LockError::FlockFailed(m) => crate::text::concat_str("flock system call failed: ", m.as_str()),
        }
    }
}

} // verus!
