//! Recording state machine.
//!
//! States: `Idle` → `Recording` → `Transcribing` → `Idle`, plus `VadActive`
//! for hands-free mode. Persisting the state to disk is done by the caller
//! with [`state_str`]; reading it back with [`parse_state`].
use vstd::prelude::*;
use crate::text::{str_eq, trim, trim_str};

verus! {

/// State of the dictation daemon.
#[derive(Debug, Clone, Copy, PartialEq, Eq, Structural)]
pub enum State {
    /// No active recording, ready to start.
    Idle,
    /// Currently recording audio.
    Recording,
    /// Processing/transcribing recorded audio.
    Transcribing,
    /// VAD mode active: continuously listening and auto-transcribing.
    VadActive,
}

/// Errors that can occur during state management.
#[derive(Debug, Clone, PartialEq, Eq)]
pub enum StateError {
    /// An I/O error, with its message.
    Io(String),
    InvalidTransition { from: State, to: State },
    RecordingTimeout,
    CorruptedState,
}

/// A state's name as it is shown in messages.
pub open spec fn state_name(s: State) -> Seq<char> {
    match s {
        State::Idle => "Idle"@,
        State::Recording => "Recording"@,
        State::Transcribing => "Transcribing"@,
        State::VadActive => "VadActive"@,
    }
}

fn state_name_str(s: State) -> (r: &'static str)
    ensures
        r@ == state_name(s),
{
    match s {
        State::Idle => "Idle",
        State::Recording => "Recording",
        State::Transcribing => "Transcribing",
        State::VadActive => "VadActive",
    }
}

impl StateError {
    /// The error's message.
    pub fn message(&self) -> (r: String)
        ensures
            r@ == match *self {
                StateError::Io(m) => "IO error: "@ + m@,
                StateError::InvalidTransition { from, to } => "Invalid state transition from "@ + state_name(from)
                    + " to "@ + state_name(to),
                StateError::RecordingTimeout => "Recording timeout exceeded"@,
                StateError::CorruptedState => "State file corrupted"@,
            },
    {
        match self {
            StateError::Io(m) => crate::text::concat_str("IO error: ", m.as_str()),
            StateError::InvalidTransition { from, to } => {
                let a = crate::text::concat_str("Invalid state transition from ", state_name_str(*from));
                let b = crate::text::concat_str(a.as_str(), " to ");
                crate::text::concat_str(b.as_str(), state_name_str(*to))
            },
            StateError::RecordingTimeout => "Recording timeout exceeded".to_string(),
            StateError::CorruptedState => "State file corrupted".to_string(),
        }
    }
}

/// A monotonic instant (std `Instant`), used to time recordings.
#[verifier::external_type_specification]
#[verifier::external_body]
pub struct ExInstant(std::time::Instant);

/// The current monotonic instant.
///
/// Wraps `std::time::Instant::now`; nothing is stated of the value.
#[verifier::external_body]
fn instant_now() -> std::time::Instant {
    std::time::Instant::now()
}

/// The time elapsed since `start`.
///
/// Wraps `std::time::Instant::elapsed`; the value depends on the clock, so
/// nothing is stated of it.
#[verifier::external_body]
fn instant_elapsed(start: &std::time::Instant) -> std::time::Duration {
    start.elapsed()
}

/// The whole nanoseconds of `d`.
///
/// Wraps `std::time::Duration::as_nanos`; durations come from the clock
/// here, so nothing is stated of the value.
#[verifier::external_body]
fn duration_nanos(d: &std::time::Duration) -> u128 {
    d.as_nanos()
}

/// Nanoseconds elapsed since `start`, saturating into `u64` (some 584
/// years).
fn elapsed_ns(start: &std::time::Instant) -> u64 {
    let ns = duration_nanos(&instant_elapsed(start));
    if ns > 0xffff_ffff_ffff_ffffu128 {
        u64::MAX
    } else {
        ns as u64
    }
}

/// Whether `elapsed_ns` nanoseconds are more than `max_ms` milliseconds.
pub open spec fn past_deadline(elapsed_ns: u64, max_ms: u64) -> bool {
    elapsed_ns > max_ms * 1_000_000
}

/// Whether `elapsed_ns` nanoseconds are more than `max_ms` milliseconds.
fn is_past_deadline(elapsed_ns: u64, max_ms: u64) -> (r: bool)
    ensures
        r == past_deadline(elapsed_ns, max_ms),
{
    let limit: u128 = (max_ms as u128) * 1_000_000u128;
    (elapsed_ns as u128) > limit
}

/// Whether moving from `from` to `to` is allowed: Idle → Recording,
/// Recording → Transcribing, Idle → VadActive, and anything → Idle.
pub open spec fn valid_transition(from: State, to: State) -> bool {
    ||| (from == State::Idle && to == State::Recording)
    ||| (from == State::Recording && to == State::Transcribing)
    ||| (from == State::Idle && to == State::VadActive)
    ||| to == State::Idle
}

/// The on-disk form of a state.
pub open spec fn state_text(s: State) -> Seq<char> {
    match s {
        State::Idle => "idle"@,
        State::Recording => "recording"@,
        State::Transcribing => "transcribing"@,
        State::VadActive => "vad_active"@,
    }
}

/// The state a (trimmed) on-disk text denotes, if any.
pub open spec fn state_of_text(t: Seq<char>) -> Option<State> {
    if t == "idle"@ {
        Some(State::Idle)
    } else if t == "recording"@ {
        Some(State::Recording)
    } else if t == "transcribing"@ {
        Some(State::Transcribing)
    } else if t == "vad_active"@ {
        Some(State::VadActive)
    } else {
        None
    }
}

/// The on-disk form of a state (`idle`, `recording`, `transcribing`, `vad_active`).
pub fn state_str(s: State) -> (r: &'static str)
    ensures
        r@ == state_text(s),
{
    match s {
        State::Idle => "idle",
        State::Recording => "recording",
        State::Transcribing => "transcribing",
        State::VadActive => "vad_active",
    }
}

/// Parses the contents of the state file (surrounding white space ignored).
pub fn parse_state(contents: &str) -> (r: Result<State, StateError>)
    ensures
        r == match state_of_text(trim(contents@)) {
            Some(s) => Ok::<State, StateError>(s),
            None => Err(StateError::CorruptedState),
        },
{
    let t = trim_str(contents);
    if str_eq(t.as_str(), "idle") {
        Ok(State::Idle)
    } else if str_eq(t.as_str(), "recording") {
        Ok(State::Recording)
    } else if str_eq(t.as_str(), "transcribing") {
        Ok(State::Transcribing)
    } else if str_eq(t.as_str(), "vad_active") {
        Ok(State::VadActive)
    } else {
        Err(StateError::CorruptedState)
    }
}

/// Manages state transitions and the recording deadline.
pub struct StateManager {
    current_state: State,
    state_dir: String,
    recording_started: Option<std::time::Instant>,
    max_recording_duration_ms: u64,
}

impl StateManager {
    /// The current state.
    pub closed spec fn state(&self) -> State {
        self.current_state
    }

    /// Whether a recording start time is held.
    pub closed spec fn timing(&self) -> bool {
        self.recording_started is Some
    }

    /// The recording deadline in milliseconds.
    pub closed spec fn max_duration_ms(&self) -> u64 {
        self.max_recording_duration_ms
    }

    /// The state directory.
    pub closed spec fn dir(&self) -> Seq<char> {
        self.state_dir@
    }

    /// Consistency: a start time is held exactly while recording.
    pub closed spec fn wf(&self) -> bool {
        self.recording_started is Some ==> self.current_state == State::Recording
    }

    /// A manager for `state_dir`, starting Idle with a two-minute deadline.
    pub fn new(state_dir: &str) -> (r: Self)
        ensures
            r.wf(),
            r.state() == State::Idle,
            !r.timing(),
            r.max_duration_ms() == 120_000,
            r.dir() == state_dir@,
    {
        StateManager {
            current_state: State::Idle,
            state_dir: crate::text::copy_str(state_dir),
            recording_started: None,
            max_recording_duration_ms: 120_000,
        }
    }

    /// The current state.
    pub fn current_state(&self) -> (r: State)
        ensures
            r == self.state(),
    {
        self.current_state
    }

    /// The state directory.
    pub fn state_dir(&self) -> (r: String)
        ensures
            r@ == self.dir(),
    {
        crate::text::copy_str(self.state_dir.as_str())
    }

    /// Changes the recording deadline.
    pub fn set_max_recording_duration_ms(&mut self, ms: u64)
        ensures
            final(self).max_duration_ms() == ms,
            final(self).state() == old(self).state(),
            final(self).timing() == old(self).timing(),
            final(self).dir() == old(self).dir(),
            old(self).wf() ==> final(self).wf(),
    {
        self.max_recording_duration_ms = ms;
    }

    /// Moves to `new_state`, given the nanoseconds spent recording so far
    /// (`None` when no recording is timed) and the current instant.
    ///
    /// An invalid move is refused and changes nothing. Leaving `Recording`
    /// after the deadline resets to `Idle` and reports the timeout.
    pub fn transition_with(
        &mut self,
        new_state: State,
        recording_elapsed_ns: Option<u64>,
        now: std::time::Instant,
    ) -> (r: Result<(), StateError>)
        requires
            old(self).wf(),
            recording_elapsed_ns is Some <==> old(self).timing(),
        ensures
            final(self).wf(),
            final(self).max_duration_ms() == old(self).max_duration_ms(),
            final(self).dir() == old(self).dir(),
            !valid_transition(old(self).state(), new_state) ==> r == Err::<(), StateError>(
                StateError::InvalidTransition { from: old(self).state(), to: new_state },
            ) && final(self).state() == old(self).state() && final(self).timing() == old(self).timing(),
            valid_transition(old(self).state(), new_state) && (recording_elapsed_ns matches Some(
                e,
            ) && past_deadline(e, old(self).max_duration_ms())) ==> r == Err::<(), StateError>(
                StateError::RecordingTimeout,
            ) && final(self).state() == State::Idle && !final(self).timing(),
            valid_transition(old(self).state(), new_state) && !(recording_elapsed_ns matches Some(
                e,
            ) && past_deadline(e, old(self).max_duration_ms())) ==> r == Ok::<(), StateError>(())
                && final(self).state() == new_state && final(self).timing() == (new_state
                == State::Recording),
    {
        if !self.is_valid_transition(self.current_state, new_state) {
            return Err(StateError::InvalidTransition { from: self.current_state, to: new_state });
        }
        if let Some(e) = recording_elapsed_ns {
            if is_past_deadline(e, self.max_recording_duration_ms) {
                self.current_state = State::Idle;
                self.recording_started = None;
                return Err(StateError::RecordingTimeout);
            }
        }
        self.current_state = new_state;
        match new_state {
            State::Recording => {
                self.recording_started = Some(now);
            },
            _ => {
                self.recording_started = None;
            },
        }
        Ok(())
    }

    /// Moves to `new_state`, reading the clock for the recording deadline.
    pub fn transition(&mut self, new_state: State) -> (r: Result<(), StateError>)
        requires
            old(self).wf(),
        ensures
            final(self).wf(),
            final(self).max_duration_ms() == old(self).max_duration_ms(),
            final(self).dir() == old(self).dir(),
            !valid_transition(old(self).state(), new_state) ==> r == Err::<(), StateError>(
                StateError::InvalidTransition { from: old(self).state(), to: new_state },
            ) && final(self).state() == old(self).state(),
            valid_transition(old(self).state(), new_state) ==> (r == Ok::<(), StateError>(())
                && final(self).state() == new_state) || (old(self).timing() && r == Err::<
                (),
                StateError,
            >(StateError::RecordingTimeout) && final(self).state() == State::Idle),
            valid_transition(old(self).state(), new_state) && !old(self).timing() ==> r == Ok::<
                (),
                StateError,
            >(()),
    {
        let elapsed = match &self.recording_started {
            Some(start) => Some(elapsed_ns(start)),
            None => None,
        };
        let now = instant_now();
        self.transition_with(new_state, elapsed, now)
    }

    fn is_valid_transition(&self, from: State, to: State) -> (r: bool)
        ensures
            r == valid_transition(from, to),
    {
        match (from, to) {
            (State::Idle, State::Recording) => true,
            (State::Recording, State::Transcribing) => true,
            (State::Idle, State::VadActive) => true,
            (_, State::Idle) => true,
            _ => false,
        }
    }

    /// Sets the state from the state file's contents (`None` when there is
    /// no state file): no file means Idle; unreadable text is an error and
    /// changes nothing.
    pub fn load_state(&mut self, contents: Option<&str>) -> (r: Result<(), StateError>)
        requires
            old(self).wf(),
        ensures
            final(self).wf(),
            final(self).max_duration_ms() == old(self).max_duration_ms(),
            final(self).dir() == old(self).dir(),
            final(self).timing() == old(self).timing() && (old(self).timing() ==> final(self).state() == State::Recording) || !final(self).timing(),
            contents is None ==> r == Ok::<(), StateError>(()) && final(self).state()
                == State::Idle,
            contents matches Some(c) ==> match state_of_text(trim(c@)) {
                Some(s) => r == Ok::<(), StateError>(()) && final(self).state() == s,
                None => r == Err::<(), StateError>(StateError::CorruptedState) && final(self).state() == old(self).state(),
            },
    {
        match contents {
            None => {
                self.current_state = State::Idle;
                self.recording_started = None;
                Ok(())
            },
            Some(c) => {
                match parse_state(c) {
                    Ok(s) => {
                        self.current_state = s;
                        if s != State::Recording {
                            self.recording_started = None;
                        }
                        Ok(())
                    },
                    Err(e) => Err(e),
                }
            },
        }
    }

    /// Whether a recording that has run for `elapsed_ns` nanoseconds is past
    /// the deadline.
    pub open spec fn timed_out_after(&self, elapsed_ns: u64) -> bool {
        self.state() == State::Recording && self.timing() && past_deadline(elapsed_ns, self.max_duration_ms())
    }

    /// Whether the recording, having run for `elapsed_ns` nanoseconds, is
    /// past the deadline: only a timed recording can be, and only once more
    /// than the deadline has passed.
    pub fn recording_timed_out(&self, elapsed_ns: u64) -> (r: bool)
        ensures
            r == self.timed_out_after(elapsed_ns),
    {
        self.current_state == State::Recording && self.recording_started.is_some() && is_past_deadline(
            elapsed_ns,
            self.max_recording_duration_ms,
        )
    }

    /// Whether a recording has run past the deadline, by the clock: the
    /// verdict of [`StateManager::recording_timed_out`] on the nanoseconds
    /// elapsed since the recording started (which the clock decides).
    pub fn check_recording_timeout(&self) -> (r: bool)
        ensures
            self.state() != State::Recording || !self.timing() ==> !r,
            exists|elapsed: u64| r == self.timed_out_after(elapsed),
    {
        match &self.recording_started {
            Some(start) => {
                let elapsed = elapsed_ns(start);
                self.recording_timed_out(elapsed)
            },
            None => {
                assert(!self.timed_out_after(0));
                false
            },
        }
    }

    /// Reconciles the state with reality on startup.
    ///
    /// A `Transcribing` state is always stale and is reset to `Idle`. A
    /// `Recording` state is reset to `Idle` when `is_process_alive` reports
    /// the recording process dead. Returns whether the state was reset; the
    /// caller persists the new state when it was.
    pub fn reconcile_state<F>(&mut self, is_process_alive: F) -> (r: Result<bool, StateError>)
        where F: FnOnce() -> Result<bool, String>,
        requires
            old(self).wf(),
            old(self).state() == State::Recording ==> call_requires(is_process_alive, ()),
        ensures
            final(self).wf(),
            final(self).max_duration_ms() == old(self).max_duration_ms(),
            final(self).dir() == old(self).dir(),
            old(self).state() == State::Transcribing ==> r == Ok::<bool, StateError>(true)
                && final(self).state() == State::Idle,
            old(self).state() != State::Transcribing && old(self).state() != State::Recording
                ==> r == Ok::<bool, StateError>(false) && final(self).state() == old(self).state() && final(self).timing() == old(self).timing(),
            old(self).state() == State::Recording ==> match r {
                Ok(true) => call_ensures(is_process_alive, (), Ok::<bool, String>(false))
                    && final(self).state() == State::Idle,
                Ok(false) => call_ensures(is_process_alive, (), Ok::<bool, String>(true))
                    && final(self).state() == State::Recording && final(self).timing() == old(self).timing(),
                Err(StateError::Io(e)) => call_ensures(is_process_alive, (), Err::<bool, String>(e))
                    && final(self).state() == State::Recording && final(self).timing() == old(self).timing(),
                Err(_) => false,
            },
    {
        if self.current_state == State::Transcribing {
            self.current_state = State::Idle;
            self.recording_started = None;
            return Ok(true);
        }
        if self.current_state != State::Recording {
            return Ok(false);
        }
        let out = is_process_alive();
        let ghost g = out;
        assert(call_ensures(is_process_alive, (), g));
        match out {
            Ok(false) => {
                self.current_state = State::Idle;
                self.recording_started = None;
                Ok(true)
            },
            Ok(true) => Ok(false),
            Err(e) => Err(StateError::Io(e)),
        }
    }
}

/// From any state, a move to `Idle` ends in `Idle` (emergency stop).
pub proof fn law_idle_always_reachable(from: State)
    ensures
        valid_transition(from, State::Idle),
{
}

/// `Recording` can only be entered from `Idle`, and `Transcribing` only from
/// `Recording`.
pub proof fn law_entry_states(from: State)
    ensures
        valid_transition(from, State::Recording) <==> from == State::Idle,
        valid_transition(from, State::Transcribing) <==> from == State::Recording,
        valid_transition(from, State::VadActive) <==> from == State::Idle,
{
}

/// Every state's on-disk form parses back to the state.
pub proof fn law_state_text_round_trip(s: State)
    ensures
        state_of_text(trim(state_text(s))) == Some(s),
{
    reveal_strlit("idle");
    reveal_strlit("recording");
    reveal_strlit("transcribing");
    reveal_strlit("vad_active");
    let t = state_text(s);
    assert(crate::text::trim_start(t) == t);
    assert(crate::text::trim_end(t) == t);
    assert("idle"@.len() == 4);
    assert("recording"@.len() == 9);
    assert("transcribing"@.len() == 12);
    assert("vad_active"@.len() == 10);
}

} // verus!
