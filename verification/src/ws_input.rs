//! The session protocol of the WebSocket audio input.
//!
//! A client sends a text frame `{"type": "start", ...}`, then binary frames
//! of little-endian 16-bit PCM, then `{"type": "end"}`. Binary frames
//! outside a session are ignored; ending a session flushes the detector
//! with a second of silence. A text frame's kind is its JSON `type` member.
//! The server (sockets and the echo of engine events) belongs to the
//! program around the library.
use vstd::prelude::*;
use crate::continuous_capture::{decode_s16le, s16le_samples};
use crate::provider::{json_of_text, json_step, member_exec, parse_json_text, JsonValue, SegmentView};

verus! {

/// Samples of silence sent when a session ends (one second at 16 kHz).
pub const FLUSH_SAMPLES: usize = 16000;

/// A frame received from a client.
#[derive(Debug, Clone, PartialEq, Eq)]
pub enum WsFrame {
    /// A text frame; `kind` is its JSON `type` field when it is a JSON
    /// object whose `type` is a string.
    Text { kind: Option<String> },
    /// A binary frame of PCM bytes.
    Binary(Vec<u8>),
    /// The client closed the connection.
    Close,
    /// A ping, pong or raw frame.
    Control,
}

/// The kind a text frame names: its JSON `type` member, when the text is
/// JSON and that member is a string.
pub open spec fn frame_kind(text: Seq<char>) -> Option<Seq<char>> {
    match json_of_text(text) {
        None => None,
        Some(v) => match json_step(v, SegmentView::Field("type"@)) {
            Some(JsonValue::Str(k)) => Some(k@),
            _ => None,
        },
    }
}

/// The kind of a text frame (see [`frame_kind`]).
pub fn frame_kind_of(text: &str) -> (r: Option<String>)
    ensures
        crate::text::opt_view(r) == frame_kind(text@),
{
    let parsed = parse_json_text(text);
    match &parsed {
        None => None,
        Some(v) => match v {
            JsonValue::Object(entries) => {
                let key = crate::text::chars_of("type");
                match member_exec(entries, &key) {
                    Some(k) => match &entries[k].1 {
                        JsonValue::Str(t) => Some(crate::text::copy_str(t.as_str())),
                        _ => None,
                    },
                    None => None,
                }
            },
            _ => None,
        },
    }
}

/// The frame a text message is: a text frame of the kind it names.
pub fn text_frame(text: &str) -> (r: WsFrame)
    ensures
        r matches WsFrame::Text { kind } && crate::text::opt_view(kind) == frame_kind(text@),
{
    WsFrame::Text { kind: frame_kind_of(text) }
}

/// What the server does with a frame.
#[derive(Debug, Clone, PartialEq, Eq)]
pub enum WsAction {
    /// Nothing.
    Ignore,
    /// Send these samples to the detector.
    Forward(Vec<i16>),
    /// Send this many samples of silence to the detector.
    Flush(usize),
    /// Close the connection.
    Close,
}

/// The state of one client connection.
#[derive(Debug, Clone, Copy, PartialEq, Eq, Structural)]
pub struct WsSession {
    /// Whether a session has started and not ended.
    pub active: bool,
}

impl WsSession {
    /// A connection with no session yet.
    pub fn new() -> (r: Self)
        ensures
            !r.active,
    {
        WsSession { active: false }
    }

    /// Handles one frame: the action, and the session state afterwards.
    pub fn on_frame(&mut self, frame: WsFrame) -> (r: WsAction)
        ensures
            final(self).active == active_next(old(self).active, frame),
            match frame {
                WsFrame::Text { kind: Some(k) } => if k@ == "start"@ {
                    final(self).active && r == WsAction::Ignore
                } else if k@ == "end"@ {
                    !final(self).active && r == WsAction::Flush(FLUSH_SAMPLES)
                } else {
                    *final(self) == *old(self) && r == WsAction::Ignore
                },
                WsFrame::Text { kind: None } => *final(self) == *old(self) && r == WsAction::Ignore,
                WsFrame::Binary(data) => *final(self) == *old(self) && if old(self).active {
                    r matches WsAction::Forward(s) && s@ == s16le_samples(data@)
                } else {
                    r == WsAction::Ignore
                },
                WsFrame::Close => *final(self) == *old(self) && r == WsAction::Close,
                WsFrame::Control => *final(self) == *old(self) && r == WsAction::Ignore,
            },
    {
        match frame {
            WsFrame::Text { kind: Some(k) } => {
                if crate::text::str_eq(k.as_str(), "start") {
                    self.active = true;
                    WsAction::Ignore
                } else if crate::text::str_eq(k.as_str(), "end") {
                    self.active = false;
                    WsAction::Flush(FLUSH_SAMPLES)
                } else {
                    WsAction::Ignore
                }
            },
            WsFrame::Text { kind: None } => WsAction::Ignore,
            WsFrame::Binary(data) => {
                if self.active {
                    WsAction::Forward(decode_s16le(data.as_slice()))
                } else {
                    WsAction::Ignore
                }
            },
            WsFrame::Close => WsAction::Close,
            WsFrame::Control => WsAction::Ignore,
        }
    }
}

/// Whether a frame starts a session.
pub open spec fn is_start(f: WsFrame) -> bool {
    f matches WsFrame::Text { kind: Some(k) } && k@ == "start"@
}

/// Whether a frame ends a session.
pub open spec fn is_end(f: WsFrame) -> bool {
    f matches WsFrame::Text { kind: Some(k) } && k@ == "end"@ && k@ != "start"@
}

/// Whether a session is active after a frame.
pub open spec fn active_next(active: bool, f: WsFrame) -> bool {
    if is_start(f) {
        true
    } else if is_end(f) {
        false
    } else {
        active
    }
}

/// Whether a session is active after a run of frames.
pub open spec fn active_after(active: bool, frames: Seq<WsFrame>) -> bool
    decreases frames.len(),
{
    if frames.len() == 0 {
        active
    } else {
        active_next(active_after(active, frames.drop_last()), frames.last())
    }
}

/// Whether some start frame of `frames` before index `i` has no end frame
/// after it (and before `i`).
pub open spec fn open_start_before(frames: Seq<WsFrame>, i: int) -> bool {
    exists|j: int|
        0 <= j < i && #[trigger] is_start(frames[j]) && forall|k: int|
            j < k < i ==> !#[trigger] is_end(frames[k])
}

/// On a new connection, a session is active after a run of frames exactly
/// when some start frame has not been followed by an end frame; so audio
/// reaches the detector only between a start and an end.
pub proof fn law_session_between_start_and_end(frames: Seq<WsFrame>)
    ensures
        active_after(false, frames) == open_start_before(frames, frames.len() as int),
    decreases frames.len(),
{
    let n = frames.len() as int;
    if n > 0 {
        let init = frames.drop_last();
        law_session_between_start_and_end(init);
        let f = frames.last();
        assert forall|j: int| 0 <= j < n - 1 implies #[trigger] frames[j] == init[j] by {}
        if is_start(f) {
            assert(is_start(frames[n - 1]));
            assert(open_start_before(frames, n));
        } else if is_end(f) {
            if open_start_before(frames, n) {
                let j = choose|j: int|
                    0 <= j < n && #[trigger] is_start(frames[j]) && forall|k: int|
                        j < k < n ==> !#[trigger] is_end(frames[k]);
                if j < n - 1 {
                    assert(!is_end(frames[n - 1]));
                } else {
                    assert(is_start(frames[n - 1]));
                }
            }
        } else {
            if open_start_before(init, n - 1) {
                let j = choose|j: int|
                    0 <= j < n - 1 && #[trigger] is_start(init[j]) && forall|k: int|
                        j < k < n - 1 ==> !#[trigger] is_end(init[k]);
                assert(is_start(frames[j]));
                assert forall|k: int| j < k < n implies !#[trigger] is_end(frames[k]) by {
                    if k < n - 1 {
                        assert(frames[k] == init[k]);
                    }
                }
            }
            if open_start_before(frames, n) {
                let j = choose|j: int|
                    0 <= j < n && #[trigger] is_start(frames[j]) && forall|k: int|
                        j < k < n ==> !#[trigger] is_end(frames[k]);
                assert(j < n - 1);
                assert(is_start(init[j]));
                assert forall|k: int| j < k < n - 1 implies !#[trigger] is_end(init[k]) by {
                    assert(frames[k] == init[k]);
                    assert(!is_end(frames[k]));
                }
            }
        }
    }
}

} // verus!
