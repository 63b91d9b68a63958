//! The command line: a profile and an optional subcommand.
use vstd::prelude::*;

verus! {

/// The parsed command line.
#[derive(Debug, Clone, PartialEq, Eq)]
pub struct Cli {
    /// Configuration profile (loads `config.{profile}.toml`).
    pub profile: Option<String>,
    /// The subcommand; none launches the interactive interface.
    pub command: Option<Commands>,
}

/// Subcommands.
#[derive(Debug, Clone, PartialEq, Eq)]
pub enum Commands {
    /// Toggle recording/transcription.
    Toggle,
    /// Toggle VAD mode.
    Vad,
    /// Start the WebSocket server for remote audio input (the event socket
    /// at `socket` when given).
    WsListen { host: String, port: u16, socket: Option<String> },
    /// Audio device management.
    Device { action: Option<DeviceAction> },
    /// Show or set the default profile.
    Profile { name: Option<String> },
    /// Show or set the speech-recognition server.
    Server { url: Option<String> },
    /// Check the configuration, the server and optionally a transcription
    /// of `file`.
    Test { file: Option<String> },
    /// Toggle auto-enter of the running daemon.
    AutoEnter,
    /// Select an audio device (shortcut for `device select`).
    Select,
    /// List audio devices (shortcut for `device list`).
    List,
    /// Show the current device (shortcut for `device current`).
    Current,
}

/// Device subcommands.
#[derive(Debug, Clone, Copy, PartialEq, Eq, Structural)]
pub enum DeviceAction {
    List,
    Select,
    Current,
}

/// What a device command does: the shortcuts are the same as the matching
/// `device` subcommand, and `device` without an action shows the current
/// device.
pub fn device_action_of(command: &Commands) -> (r: Option<DeviceAction>)
    ensures
        match command {
            Commands::Select => r == Some(DeviceAction::Select),
            Commands::List => r == Some(DeviceAction::List),
            Commands::Current => r == Some(DeviceAction::Current),
            Commands::Device { action } => r == Some(
                match action {
                    Some(a) => *a,
                    None => DeviceAction::Current,
                },
            ),
            _ => r is None,
        },
{
    match command {
        Commands::Select => Some(DeviceAction::Select),
        Commands::List => Some(DeviceAction::List),
        Commands::Current => Some(DeviceAction::Current),
        Commands::Device { action } => Some(
            match action {
                Some(a) => *a,
                None => DeviceAction::Current,
            },
        ),
        _ => None,
    }
}

} // verus!
