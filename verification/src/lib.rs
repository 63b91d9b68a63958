//! Speech-to-text dictation core: transcript agreement, progressive typing,
//! text filtering, state machine and configuration rules.
use vstd::prelude::*;

pub mod text;
pub mod streaming;
pub mod desktop;
pub mod progressive_typing;
pub mod typing_switch;
pub mod state;
pub mod text_filters;
pub mod audio;
pub mod continuous_capture;
pub mod recording;
pub mod lock;
pub mod cli;
pub mod process;
pub mod provider;
pub mod tui;
pub mod tui_app;
pub mod vad;
pub mod streaming_engine;
pub mod health;
pub mod config;
pub mod whisper;
pub mod ipc;
pub mod session;
pub mod tui_view;
pub mod wav;
pub mod ws_input;
pub mod tui_run;
pub mod ducker;
pub mod highlight;

verus! {

} // verus!
