//! Recorder process bookkeeping: the PID file and the stop protocol.
//!
//! Reading and writing the PID file and signalling processes are done by the
//! caller; this module decides what the file's contents mean and what to do
//! next at each step.
use vstd::prelude::*;
use crate::text::{decimal, decimal_string, parse_u32, parse_u32_exec, trim, trim_str, opt_str_view};

verus! {

/// Errors that can occur during process management.
#[derive(Debug, Clone, PartialEq, Eq)]
pub enum ProcessError {
    /// An I/O error, with its message.
    Io(String),
    /// The recorder could not be started.
    SpawnFailed(String),
    /// No recording process is registered.
    ProcessNotFound,
    /// A signal could not be delivered.
    SignalFailed(String),
    /// The PID file does not hold a process id.
    InvalidPid,
    /// The process survived both SIGTERM and SIGKILL.
    TerminationFailed,
}

impl ProcessError {
    /// The error's message.
    pub fn message(&self) -> (r: String)
        ensures
            r@ == match *self {
                ProcessError::Io(m) => "IO error: "@ + m@,
                ProcessError::SpawnFailed(m) => "Failed to spawn process: "@ + m@,
                ProcessError::ProcessNotFound => "Process not found"@,
                ProcessError::SignalFailed(m) => "Failed to signal process: "@ + m@,
                ProcessError::InvalidPid => "Invalid PID in file"@,
                ProcessError::TerminationFailed => "Failed to terminate process gracefully"@,
            },
    {
        match self {
            ProcessError::Io(m) => crate::text::concat_str("IO error: ", m.as_str()),
            ProcessError::SpawnFailed(m) => crate::text::concat_str("Failed to spawn process: ", m.as_str()),
            ProcessError::ProcessNotFound => "Process not found".to_string(),
            ProcessError::SignalFailed(m) => crate::text::concat_str("Failed to signal process: ", m.as_str()),
            ProcessError::InvalidPid => "Invalid PID in file".to_string(),
            ProcessError::TerminationFailed => "Failed to terminate process gracefully".to_string(),
        }
    }
}

/// Manages a recording process tracked through a PID file.
pub struct ProcessManager {
    pid_file: String,
    timeout_secs: u64,
}

/// The process id that a PID file's contents denote (surrounding white
/// space ignored); `None` when they are not a valid `u32`.
pub open spec fn pid_of_contents(contents: Seq<char>) -> Option<u32> {
    parse_u32(trim(contents))
}

/// What reading the PID file gives: `None` contents mean the file is absent.
pub open spec fn read_pid_result(contents: Option<Seq<char>>) -> Result<Option<u32>, ProcessError> {
    match contents {
        None => Ok(None),
        Some(c) => match pid_of_contents(c) {
            Some(pid) => Ok(Some(pid)),
            None => Err(ProcessError::InvalidPid),
        },
    }
}

/// The next step of stopping a recorder.
#[derive(Debug, Clone, Copy, PartialEq, Eq, Structural)]
pub enum StopStep {
    /// The process is gone: delete the PID file and report success.
    Finish,
    /// Send SIGTERM, wait a moment and check again.
    Terminate,
    /// Wait a moment and check again.
    Wait,
    /// Send SIGKILL, wait a moment and check again.
    Kill,
    /// The process would not die: delete the PID file and report
    /// [`ProcessError::TerminationFailed`].
    GiveUp,
}

/// Polls allowed after SIGTERM before escalating to SIGKILL.
pub const TERM_POLLS: u32 = 10;

/// Polls allowed after SIGKILL before giving up.
pub const KILL_POLLS: u32 = 5;

/// The step after liveness check number `checks` (0 is the check before
/// any signal) found the process alive or not.
pub open spec fn stop_step_spec(checks: u32, alive: bool) -> StopStep {
    if !alive {
        StopStep::Finish
    } else if checks == 0 {
        StopStep::Terminate
    } else if checks < TERM_POLLS {
        StopStep::Wait
    } else if checks == TERM_POLLS {
        StopStep::Kill
    } else if checks < TERM_POLLS + KILL_POLLS {
        StopStep::Wait
    } else {
        StopStep::GiveUp
    }
}

/// Decides the next step of [`ProcessManager`]'s stop protocol: SIGTERM,
/// up to ten polls, SIGKILL, up to five polls, then give up.
pub fn stop_step(checks: u32, alive: bool) -> (r: StopStep)
    ensures
        r == stop_step_spec(checks, alive),
{
    if !alive {
        StopStep::Finish
    } else if checks == 0 {
        StopStep::Terminate
    } else if checks < TERM_POLLS {
        StopStep::Wait
    } else if checks == TERM_POLLS {
        StopStep::Kill
    } else if checks < TERM_POLLS + KILL_POLLS {
        StopStep::Wait
    } else {
        StopStep::GiveUp
    }
}

/// A process that stays alive is signalled exactly twice (SIGTERM on the
/// first check, SIGKILL on check ten) and given up on at check fifteen; a
/// dead process always ends the protocol.
pub proof fn law_stop_protocol(checks: u32)
    ensures
        stop_step_spec(checks, false) == StopStep::Finish,
        stop_step_spec(checks, true) == StopStep::Terminate <==> checks == 0,
        stop_step_spec(checks, true) == StopStep::Kill <==> checks == TERM_POLLS,
        stop_step_spec(checks, true) == StopStep::GiveUp <==> checks >= TERM_POLLS + KILL_POLLS,
{
}

impl ProcessManager {
    /// The PID file's path.
    pub closed spec fn pid_file_spec(&self) -> Seq<char> {
        self.pid_file@
    }

    /// The recorder's time limit in seconds.
    pub closed spec fn timeout_spec(&self) -> u64 {
        self.timeout_secs
    }

    /// Creates a manager for the given PID file and recording time limit.
    pub fn new(pid_file: &str, timeout_secs: u64) -> (r: Self)
        ensures
            r.pid_file_spec() == pid_file@,
            r.timeout_spec() == timeout_secs,
    {
        ProcessManager { pid_file: pid_file.to_string(), timeout_secs }
    }

    /// The PID file's path.
    pub fn pid_file_path(&self) -> (r: &str)
        ensures
            r@ == self.pid_file_spec(),
    {
        self.pid_file.as_str()
    }

    /// The recorder's time limit in seconds.
    pub fn timeout_secs(&self) -> (r: u64)
        ensures
            r == self.timeout_spec(),
    {
        self.timeout_secs
    }

    /// The arguments of `timeout` that run `pw-record` on `device` into
    /// `output_file`: 16 kHz, mono, signed 16-bit, stopped after the time
    /// limit.
    pub fn recording_args(&self, device: &str, output_file: &str) -> (r: Vec<String>)
        ensures
            r@.map_values(|s: String| s@) == seq![
                decimal(self.timeout_spec() as nat),
                "pw-record"@,
                "--target"@,
                device@,
                "--rate"@,
                "16000"@,
                "--channels"@,
                "1"@,
                "--format"@,
                "s16"@,
                output_file@,
            ],
    {
        let mut r: Vec<String> = Vec::new();
        r.push(decimal_string(self.timeout_secs));
        r.push("pw-record".to_string());
        r.push("--target".to_string());
        r.push(device.to_string());
        r.push("--rate".to_string());
        r.push("16000".to_string());
        r.push("--channels".to_string());
        r.push("1".to_string());
        r.push("--format".to_string());
        r.push("s16".to_string());
        r.push(output_file.to_string());
        assert(r@.map_values(|s: String| s@) =~= seq![
            decimal(self.timeout_spec() as nat),
            "pw-record"@,
            "--target"@,
            device@,
            "--rate"@,
            "16000"@,
            "--channels"@,
            "1"@,
            "--format"@,
            "s16"@,
            output_file@,
        ]);
        r
    }

    /// The process id recorded in the PID file, given its contents (`None`
    /// when the file does not exist).
    pub fn read_pid(&self, contents: Option<&str>) -> (r: Result<Option<u32>, ProcessError>)
        ensures
            r == read_pid_result(opt_str_view(contents)),
    {
        match contents {
            None => Ok(None),
            Some(c) => {
                let t = trim_str(c);
                match parse_u32_exec(t.as_str()) {
                    Some(pid) => Ok(Some(pid)),
                    None => Err(ProcessError::InvalidPid),
                }
            },
        }
    }

    /// Whether the recorded process is alive, given the PID file's contents
    /// and a liveness probe for a process id.
    pub fn is_recording_alive<F: Fn(u32) -> bool>(&self, contents: Option<&str>, is_alive: F) -> (r:
        Result<bool, ProcessError>)
        requires
            forall|pid: u32| is_alive.requires((pid,)),
        ensures
            match read_pid_result(opt_str_view(contents)) {
                Err(e) => r == Err::<bool, ProcessError>(e),
                Ok(None) => r == Ok::<bool, ProcessError>(false),
                Ok(Some(pid)) => r matches Ok(b) && is_alive.ensures((pid,), b),
            },
    {
        match self.read_pid(contents) {
            Err(e) => Err(e),
            Ok(None) => Ok(false),
            Ok(Some(pid)) => Ok(is_alive(pid)),
        }
    }

    /// Whether the PID file is stale and must be deleted: it names a process
    /// that the probe finds dead. An unreadable PID is an error.
    pub fn cleanup_stale<F: Fn(u32) -> bool>(&self, contents: Option<&str>, is_alive: F) -> (r:
        Result<bool, ProcessError>)
        requires
            forall|pid: u32| is_alive.requires((pid,)),
        ensures
            match read_pid_result(opt_str_view(contents)) {
                Err(e) => r == Err::<bool, ProcessError>(e),
                Ok(None) => r == Ok::<bool, ProcessError>(false),
                Ok(Some(pid)) => r matches Ok(b) && (exists|alive: bool|
                    is_alive.ensures((pid,), alive) && b == !alive),
            },
    {
        match self.read_pid(contents) {
            Err(e) => Err(e),
            Ok(None) => Ok(false),
            Ok(Some(pid)) => {
                let alive = is_alive(pid);
                Ok(!alive)
            },
        }
    }

    /// The first step of stopping the recording: `ProcessNotFound` when no
    /// process is registered, else the step after the first liveness check.
    pub fn stop_start(&self, pid: Option<u32>, alive: bool) -> (r: Result<StopStep, ProcessError>)
        ensures
            r == match pid {
                None => Err::<StopStep, ProcessError>(ProcessError::ProcessNotFound),
                Some(_) => Ok(stop_step_spec(0, alive)),
            },
    {
        match pid {
            None => Err(ProcessError::ProcessNotFound),
            Some(_) => Ok(stop_step(0, alive)),
        }
    }
}

/// Reading back what was written: a PID file holding the decimal text of a
/// process id reads as that id.
pub proof fn law_pid_round_trip(pid: u32)
    ensures
        read_pid_result(Some(decimal(pid as nat))) == Ok::<Option<u32>, ProcessError>(Some(pid)),
{
    lemma_decimal_parses(pid as nat);
    lemma_trim_digits(decimal(pid as nat));
}

proof fn lemma_decimal_parses(n: nat)
    ensures
        decimal(n).len() > 0,
        crate::text::all_digits(decimal(n)),
        crate::text::digits_value(decimal(n)) == n,
        decimal(n)[0] != '+',
    decreases n,
{
    let d = decimal(n);
    lemma_digit_char((n % 10) as nat);
    if n < 10 {
        assert(d =~= seq![crate::text::digit_char(n)]);
        assert(d.drop_last() =~= Seq::<char>::empty());
        lemma_digit_char(n);
        assert(crate::text::digits_value(d.drop_last()) == 0);
    } else {
        lemma_decimal_parses(n / 10);
        let p = decimal(n / 10);
        assert(d == p + seq![crate::text::digit_char(n % 10)]);
        assert(d.drop_last() =~= p);
        assert(d.last() == crate::text::digit_char(n % 10));
        assert((n / 10) * 10 + n % 10 == n);
        assert(d[0] == p[0]);
        assert forall|i: int| 0 <= i < d.len() implies crate::text::is_digit(#[trigger] d[i]) by {
            if i < p.len() {
                assert(d[i] == p[i]);
            }
        }
    }
}

proof fn lemma_digit_char(d: nat)
    requires
        d < 10,
    ensures
        crate::text::digit_value(crate::text::digit_char(d)) == d,
        crate::text::is_digit(crate::text::digit_char(d)),
{
}

proof fn lemma_trim_digits(s: Seq<char>)
    requires
        crate::text::all_digits(s),
        s.len() > 0,
    ensures
        trim(s) == s,
{
    assert(crate::text::is_digit(s[0]));
    assert(crate::text::is_digit(s.last()));
    assert(crate::text::trim_start(s) == s);
    assert(crate::text::trim_end(s) == s);
}

} // verus!
