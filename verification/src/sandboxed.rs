//! One bounded-time run of an outside program, as a protocol between this
//! library and the driver that owns the process.
//!
//! The driver spawns the program with both output streams piped, drains the
//! two streams and waits for the exit side by side, all three under one
//! deadline, and tells the library what happened. The library says what to do
//! next and, at the end, what the run amounts to.
//!
//! When the deadline passes, the result carries whatever the driver had
//! drained from the two streams up to then; a driver that cannot recover
//! anything reports two empty buffers.

use crate::text::{option_view, texts_view};
use vstd::prelude::*;
use vstd::string::*;
use vstd::utf8::{decode_utf8, valid_utf8};

verus! {

/// How a process ended: its exit code, if it exited with one.
#[derive(Debug, Clone, Copy, PartialEq, Eq, Structural)]
pub struct ProcessExit {
    pub code: Option<i32>,
}

impl ProcessExit {
    pub open spec fn spec_success(&self) -> bool {
        self.code == Some(0i32)
    }

    /// The process exited with code zero.
    #[verifier::when_used_as_spec(spec_success)]
    pub fn success(&self) -> (ok: bool)
        ensures
            ok == self.spec_success(),
    {
        match self.code {
            Some(c) => c == 0,
            None => false,
        }
    }
}

/// What a sandboxed run amounts to.
#[derive(Debug, PartialEq, Eq)]
pub struct SandboxResult {
    /// The exit status, where the program ran to its end and the wait for
    /// it succeeded.
    pub status: Option<ProcessExit>,
    pub stdout: String,
    pub stderr: String,
    /// The deadline passed before the program ended.
    pub timed_out: bool,
    /// Why there is no exit status to report, where the run was cut short.
    pub error: Option<String>,
}

/// The model of [`SandboxResult`]: the same value, with texts and lists as sequences.
pub struct SandboxResultView {
    pub status: Option<ProcessExit>,
    pub stdout: Seq<char>,
    pub stderr: Seq<char>,
    pub timed_out: bool,
    pub error: Option<Seq<char>>,
}

impl View for SandboxResult {
    type V = SandboxResultView;

    open spec fn view(&self) -> SandboxResultView {
        SandboxResultView {
            status: self.status,
            stdout: self.stdout@,
            stderr: self.stderr@,
            timed_out: self.timed_out,
            error: option_view(self.error),
        }
    }
}

/// The three ways a sandboxed run can end.
#[derive(Debug, Clone, Copy, PartialEq, Eq, Structural)]
pub enum SandboxOutcome {
    /// The program ran to its end within the deadline.
    Completed,
    /// The deadline passed and the program was killed.
    TimedOut,
    /// The program could not be started.
    SpawnFailed,
}

impl SandboxResultView {
    /// Which way the run ended.
    pub open spec fn outcome(self) -> SandboxOutcome {
        if self.timed_out {
            SandboxOutcome::TimedOut
        } else if self.error is Some {
            SandboxOutcome::SpawnFailed
        } else {
            SandboxOutcome::Completed
        }
    }

    /// The result of a run whose program could not be started.
    pub open spec fn spawn_failed(reason: Seq<char>) -> SandboxResultView {
        SandboxResultView {
            status: None,
            stdout: Seq::empty(),
            stderr: Seq::empty(),
            timed_out: false,
            error: Some("Failed to spawn process: "@ + reason),
        }
    }

    /// The result of a run that ended within the deadline.
    pub open spec fn completed(
        status: Option<ProcessExit>,
        stdout: Seq<u8>,
        stderr: Seq<u8>,
    ) -> SandboxResultView {
        SandboxResultView {
            status,
            stdout: lossy_text(stdout),
            stderr: lossy_text(stderr),
            timed_out: false,
            error: None,
        }
    }

    /// The result of a run that the deadline cut short.
    pub open spec fn timed_out(
        stdout: Seq<u8>,
        stderr: Seq<u8>,
        reason: Seq<char>,
    ) -> SandboxResultView {
        SandboxResultView {
            status: None,
            stdout: lossy_text(stdout),
            stderr: lossy_text(stderr),
            timed_out: true,
            error: Some("Error waiting for process: "@ + reason),
        }
    }
}

impl SandboxResult {
    /// Which way the run ended.
    pub fn outcome(&self) -> (kind: SandboxOutcome)
        ensures
            kind == self@.outcome(),
    {
        if self.timed_out {
            SandboxOutcome::TimedOut
        } else if self.error.is_some() {
            SandboxOutcome::SpawnFailed
        } else {
            SandboxOutcome::Completed
        }
    }
}

/// The text that `String::from_utf8_lossy` makes of `bytes`.
pub uninterp spec fn utf8_lossy(bytes: Seq<u8>) -> Seq<char>;

/// The text that captured output is read as: bytes that are valid UTF-8
/// stand for the text they encode; in any others each invalid sequence is
/// replaced, and the run does not fail for it.
pub open spec fn lossy_text(bytes: Seq<u8>) -> Seq<char> {
    if valid_utf8(bytes) {
        decode_utf8(bytes)
    } else {
        utf8_lossy(bytes)
    }
}

/// Calls `String::from_utf8_lossy`.
///
/// Trusted: the text depends on the bytes alone, and bytes that are valid
/// UTF-8 decode to the text they encode; nothing is claimed here of what
/// stands in for invalid sequences.
#[verifier::external_body]
pub(crate) fn decode_lossy(bytes: &Vec<u8>) -> (text: String)
    ensures
        text@ == utf8_lossy(bytes@),
        valid_utf8(bytes@) ==> text@ == decode_utf8(bytes@),
{
    String::from_utf8_lossy(bytes).into_owned()
}

/// Where a sandboxed run stands.
#[derive(Debug, PartialEq, Eq)]
pub enum Sandbox {
    /// The driver was told to spawn the program.
    Spawning { timeout_secs: u64 },
    /// The program runs; the driver drains its output and waits, under the
    /// deadline.
    Racing,
    /// The deadline passed; the driver was told to kill the program.
    Killing { result: SandboxResult },
    /// The result was handed out.
    Done,
}

/// The model of [`Sandbox`]: the same value, with texts and lists as sequences.
pub enum SandboxView {
    Spawning { timeout_secs: u64 },
    Racing,
    Killing { result: SandboxResultView },
    Done,
}

impl View for Sandbox {
    type V = SandboxView;

    open spec fn view(&self) -> SandboxView {
        match self {
            Sandbox::Spawning { timeout_secs } => SandboxView::Spawning {
                timeout_secs: *timeout_secs,
            },
            Sandbox::Racing => SandboxView::Racing,
            Sandbox::Killing { result } => SandboxView::Killing { result: result@ },
            Sandbox::Done => SandboxView::Done,
        }
    }
}

/// What the driver reports.
#[derive(Debug, PartialEq, Eq)]
pub enum SandboxEvent {
    /// The program was started.
    Spawned,
    /// The program could not be started.
    SpawnFailed { reason: String },
    /// Both streams were drained to their end and the wait returned, all
    /// before the deadline. `status` is `None` where the wait itself failed.
    Exited { status: Option<ProcessExit>, stdout: Vec<u8>, stderr: Vec<u8> },
    /// The deadline passed first. The buffers hold what was drained so far.
    DeadlineElapsed { stdout: Vec<u8>, stderr: Vec<u8>, reason: String },
    /// The kill was issued; whether the program was still alive is of no
    /// account.
    Killed,
}

/// The model of [`SandboxEvent`]: the same value, with texts and lists as sequences.
pub enum SandboxEventView {
    Spawned,
    SpawnFailed { reason: Seq<char> },
    Exited { status: Option<ProcessExit>, stdout: Seq<u8>, stderr: Seq<u8> },
    DeadlineElapsed { stdout: Seq<u8>, stderr: Seq<u8>, reason: Seq<char> },
    Killed,
}

impl View for SandboxEvent {
    type V = SandboxEventView;

    open spec fn view(&self) -> SandboxEventView {
        match self {
            SandboxEvent::Spawned => SandboxEventView::Spawned,
            SandboxEvent::SpawnFailed { reason } => SandboxEventView::SpawnFailed {
                reason: reason@,
            },
            SandboxEvent::Exited { status, stdout, stderr } => SandboxEventView::Exited {
                status: *status,
                stdout: stdout@,
                stderr: stderr@,
            },
            SandboxEvent::DeadlineElapsed { stdout, stderr, reason } => {
                SandboxEventView::DeadlineElapsed {
                    stdout: stdout@,
                    stderr: stderr@,
                    reason: reason@,
                }
            },
            SandboxEvent::Killed => SandboxEventView::Killed,
        }
    }
}

/// What the driver is to do next.
#[derive(Debug, PartialEq, Eq)]
pub enum SandboxAction {
    /// Start the program with these arguments, standard output and standard
    /// error each through a pipe of its own.
    Spawn { program: String, args: Vec<String> },
    /// Drain both pipes and wait for the exit, side by side, and give all
    /// three up together after this many seconds.
    Race { timeout_secs: u64 },
    /// Kill the program.
    Kill,
    /// The run is over; this is its result.
    Return(SandboxResult),
    /// The report does not fit the state of the run; nothing changes.
    Ignore,
}

/// The model of [`SandboxAction`]: the same value, with texts and lists as sequences.
pub enum SandboxActionView {
    Spawn { program: Seq<char>, args: Seq<Seq<char>> },
    Race { timeout_secs: u64 },
    Kill,
    Return(SandboxResultView),
    Ignore,
}

impl View for SandboxAction {
    type V = SandboxActionView;

    open spec fn view(&self) -> SandboxActionView {
        match self {
            SandboxAction::Spawn { program, args } => SandboxActionView::Spawn {
                program: program@,
                args: texts_view(args@),
            },
            SandboxAction::Race { timeout_secs } => SandboxActionView::Race {
                timeout_secs: *timeout_secs,
            },
            SandboxAction::Kill => SandboxActionView::Kill,
            SandboxAction::Return(result) => SandboxActionView::Return(result@),
            SandboxAction::Ignore => SandboxActionView::Ignore,
        }
    }
}

impl SandboxView {
    /// The state after `event`, and what the driver is told.
    pub open spec fn step(self, event: SandboxEventView) -> (SandboxView, SandboxActionView) {
        match (self, event) {
            (SandboxView::Spawning { timeout_secs }, SandboxEventView::Spawned) => (
                SandboxView::Racing,
                SandboxActionView::Race { timeout_secs },
            ),
            (SandboxView::Spawning { .. }, SandboxEventView::SpawnFailed { reason }) => (
                SandboxView::Done,
                SandboxActionView::Return(SandboxResultView::spawn_failed(reason)),
            ),
            (SandboxView::Racing, SandboxEventView::Exited { status, stdout, stderr }) => (
                SandboxView::Done,
                SandboxActionView::Return(SandboxResultView::completed(status, stdout, stderr)),
            ),
            (SandboxView::Racing, SandboxEventView::DeadlineElapsed { stdout, stderr, reason }) => (
                SandboxView::Killing {
                    result: SandboxResultView::timed_out(stdout, stderr, reason),
                },
                SandboxActionView::Kill,
            ),
            (SandboxView::Killing { result }, SandboxEventView::Killed) => (
                SandboxView::Done,
                SandboxActionView::Return(result),
            ),
            _ => (self, SandboxActionView::Ignore),
        }
    }

    /// What holds of every state that a run can reach: a result that waits
    /// for the kill is that of a run cut short by the deadline.
    pub open spec fn reachable(self) -> bool {
        self matches SandboxView::Killing { result } ==> result.outcome()
            == SandboxOutcome::TimedOut && result.status is None
    }
}

/// Begins a run of `program` with `args` under a deadline of `timeout_secs`
/// seconds: the driver is told to spawn the program.
pub fn run_sandboxed(program: String, args: Vec<String>, timeout_secs: u64) -> (begun: (
    Sandbox,
    SandboxAction,
))
    ensures
        begun.0@ == (SandboxView::Spawning { timeout_secs }),
        begun.1@ == (SandboxActionView::Spawn { program: program@, args: texts_view(args@) }),
{
    (Sandbox::Spawning { timeout_secs }, SandboxAction::Spawn { program, args })
}

impl Sandbox {
    /// Takes the driver's report and says what comes next.
    pub fn step(self, event: SandboxEvent) -> (next: (Sandbox, SandboxAction))
        ensures
            (next.0@, next.1@) == self@.step(event@),
    {
        match self {
            Sandbox::Spawning { timeout_secs } => match event {
                SandboxEvent::Spawned => (Sandbox::Racing, SandboxAction::Race { timeout_secs }),
                SandboxEvent::SpawnFailed { reason } => {
                    let result = SandboxResult {
                        status: None,
                        stdout: String::new(),
                        stderr: String::new(),
                        timed_out: false,
                        error: Some(
                            String::from_str("Failed to spawn process: ").concat(reason.as_str()),
                        ),
                    };
                    (Sandbox::Done, SandboxAction::Return(result))
                },
                _ => (Sandbox::Spawning { timeout_secs }, SandboxAction::Ignore),
            },
            Sandbox::Racing => match event {
                SandboxEvent::Exited { status, stdout, stderr } => {
                    let result = SandboxResult {
                        status,
                        stdout: decode_lossy(&stdout),
                        stderr: decode_lossy(&stderr),
                        timed_out: false,
                        error: None,
                    };
                    (Sandbox::Done, SandboxAction::Return(result))
                },
                SandboxEvent::DeadlineElapsed { stdout, stderr, reason } => {
                    let result = SandboxResult {
                        status: None,
                        stdout: decode_lossy(&stdout),
                        stderr: decode_lossy(&stderr),
                        timed_out: true,
                        error: Some(
                            String::from_str("Error waiting for process: ").concat(reason.as_str()),
                        ),
                    };
                    (Sandbox::Killing { result }, SandboxAction::Kill)
                },
                _ => (Sandbox::Racing, SandboxAction::Ignore),
            },
            Sandbox::Killing { result } => match event {
                SandboxEvent::Killed => (Sandbox::Done, SandboxAction::Return(result)),
                _ => (Sandbox::Killing { result }, SandboxAction::Ignore),
            },
            Sandbox::Done => (Sandbox::Done, SandboxAction::Ignore),
        }
    }
}

} // verus!
