//! The emulator invocation as a state machine.
//!
//! Launching, waiting on, killing and reaping the emulator process are side
//! effects that the caller performs; this module decides, after every such
//! effect, what the invocation's state becomes and which effect is owed
//! next.  In test mode the wait is bounded and the exit status is mapped to
//! a verdict; in run mode the wait is unbounded and the exit status is
//! passed through unchanged.

use vstd::prelude::*;

verus! {

/// Why an invocation failed before a verdict could be produced.
#[derive(Clone, Copy, Debug, PartialEq, Eq, Structural)]
pub enum RunError {
    /// The emulator process could not be launched.
    SpawnFailed,
    /// The bounded wait on the emulator process itself failed.
    WaitFailed,
    /// The emulator outlived the timeout and could not be terminated.
    KillFailed,
    /// The terminated emulator could not be reaped.
    ReapFailed,
    /// The emulator outlived the timeout; it was terminated and reaped.
    TimedOut,
}

/// What the caller observed after performing the pending side effect.
#[derive(Clone, Copy, Debug, PartialEq, Eq, Structural)]
pub enum EmuEvent {
    /// The emulator process was launched.
    SpawnOk,
    /// The emulator process could not be launched.
    SpawnErr,
    /// The emulator exited with this exit code.
    ExitCode(i32),
    /// The emulator was terminated by a signal, so no exit code exists.
    Signalled,
    /// The bounded wait elapsed with the emulator still running.
    WaitExpired,
    /// Waiting on the emulator failed outright.
    WaitErr,
    /// The kill request was delivered.
    KillOk,
    /// The kill request failed.
    KillErr,
    /// The killed emulator was reaped.
    ReapOk,
    /// Reaping the killed emulator failed.
    ReapErr,
}

/// The side effect the caller owes next.
#[derive(Clone, Copy, Debug, PartialEq, Eq, Structural)]
pub enum EmuAction {
    /// Launch the emulator process.
    Spawn,
    /// Wait for the emulator: bounded by the profile's timeout in test mode,
    /// unbounded in run mode.
    Wait,
    /// Forcibly terminate the emulator.
    Kill,
    /// Wait for the terminated emulator to fully exit.
    Reap,
    /// The invocation is over; report the result.
    Report,
}

/// Where the invocation stands.
#[derive(Clone, Copy, Debug, PartialEq, Eq, Structural)]
pub enum EmuStatus {
    /// Nothing has been launched yet.
    NotStarted,
    /// The emulator process is running.
    Running,
    /// The timeout elapsed; the emulator must be terminated.
    Killing,
    /// The emulator was terminated; it must be reaped.
    Reaping,
    /// The invocation ended with this exit code for the tool.
    Finished(i32),
    /// The invocation ended in an error.
    Failed(RunError),
}

/// The transition relation of the invocation.  Events that cannot follow
/// from the state leave it unchanged.
pub open spec fn step(s: EmuStatus, e: EmuEvent, test_mode: bool, success_code: i32) -> EmuStatus {
    match (s, e) {
        (EmuStatus::NotStarted, EmuEvent::SpawnOk) => EmuStatus::Running,
        (EmuStatus::NotStarted, EmuEvent::SpawnErr) => EmuStatus::Failed(RunError::SpawnFailed),
        (EmuStatus::Running, EmuEvent::ExitCode(c)) => if test_mode && c == success_code {
            EmuStatus::Finished(0)
        } else {
            EmuStatus::Finished(c)
        },
        (EmuStatus::Running, EmuEvent::Signalled) => EmuStatus::Finished(1),
        (EmuStatus::Running, EmuEvent::WaitExpired) => if test_mode {
            EmuStatus::Killing
        } else {
            EmuStatus::Running
        },
        (EmuStatus::Running, EmuEvent::WaitErr) => EmuStatus::Failed(RunError::WaitFailed),
        (EmuStatus::Killing, EmuEvent::KillOk) => EmuStatus::Reaping,
        (EmuStatus::Killing, EmuEvent::KillErr) => EmuStatus::Failed(RunError::KillFailed),
        (EmuStatus::Reaping, EmuEvent::ReapOk) => EmuStatus::Failed(RunError::TimedOut),
        (EmuStatus::Reaping, EmuEvent::ReapErr) => EmuStatus::Failed(RunError::ReapFailed),
        _ => s,
    }
}

/// The side effect owed in a state.
pub open spec fn action_of(s: EmuStatus) -> EmuAction {
    match s {
        EmuStatus::NotStarted => EmuAction::Spawn,
        EmuStatus::Running => EmuAction::Wait,
        EmuStatus::Killing => EmuAction::Kill,
        EmuStatus::Reaping => EmuAction::Reap,
        EmuStatus::Finished(_) => EmuAction::Report,
        EmuStatus::Failed(_) => EmuAction::Report,
    }
}

/// The state after a whole sequence of observed events.
pub open spec fn run_steps(
    s: EmuStatus,
    events: Seq<EmuEvent>,
    test_mode: bool,
    success_code: i32,
) -> EmuStatus
    decreases events.len(),
{
    if events.len() == 0 {
        s
    } else {
        run_steps(step(s, events[0], test_mode, success_code), events.drop_first(), test_mode, success_code)
    }
}

/// One emulator invocation: the mode and success criterion it was resolved
/// with, and where it currently stands.
pub struct EmuSession {
    /// Whether this invocation is a test (bounded wait, exit code mapped to a
    /// verdict) or an interactive run (unbounded wait, exit code passed
    /// through).
    pub test_mode: bool,
    /// The emulator exit code that counts as a passing test.
    pub success_code: i32,
    /// Where the invocation stands.
    pub status: EmuStatus,
}

impl EmuSession {
    /// A fresh invocation: nothing launched yet.
    pub fn new(test_mode: bool, success_code: i32) -> (s: EmuSession)
        ensures
            s.test_mode == test_mode,
            s.success_code == success_code,
            s.status == EmuStatus::NotStarted,
    {
        EmuSession { test_mode, success_code, status: EmuStatus::NotStarted }
    }

    /// The side effect the caller owes next.
    pub fn next_action(&self) -> (a: EmuAction)
        ensures
            a == action_of(self.status),
    {
        match self.status {
            EmuStatus::NotStarted => EmuAction::Spawn,
            EmuStatus::Running => EmuAction::Wait,
            EmuStatus::Killing => EmuAction::Kill,
            EmuStatus::Reaping => EmuAction::Reap,
            EmuStatus::Finished(_) => EmuAction::Report,
            EmuStatus::Failed(_) => EmuAction::Report,
        }
    }

    /// Advance the invocation by one observed event.
    pub fn on_event(&mut self, e: EmuEvent)
        ensures
            final(self).status == step(old(self).status, e, old(self).test_mode, old(self).success_code),
            final(self).test_mode == old(self).test_mode,
            final(self).success_code == old(self).success_code,
    {
        let next = match (self.status, e) {
            (EmuStatus::NotStarted, EmuEvent::SpawnOk) => EmuStatus::Running,
            (EmuStatus::NotStarted, EmuEvent::SpawnErr) => EmuStatus::Failed(RunError::SpawnFailed),
            (EmuStatus::Running, EmuEvent::ExitCode(c)) => if self.test_mode && c == self.success_code {
                EmuStatus::Finished(0)
            } else {
                EmuStatus::Finished(c)
            },
            (EmuStatus::Running, EmuEvent::Signalled) => EmuStatus::Finished(1),
            (EmuStatus::Running, EmuEvent::WaitExpired) => if self.test_mode {
                EmuStatus::Killing
            } else {
                EmuStatus::Running
            },
            (EmuStatus::Running, EmuEvent::WaitErr) => EmuStatus::Failed(RunError::WaitFailed),
            (EmuStatus::Killing, EmuEvent::KillOk) => EmuStatus::Reaping,
            (EmuStatus::Killing, EmuEvent::KillErr) => EmuStatus::Failed(RunError::KillFailed),
            (EmuStatus::Reaping, EmuEvent::ReapOk) => EmuStatus::Failed(RunError::TimedOut),
            (EmuStatus::Reaping, EmuEvent::ReapErr) => EmuStatus::Failed(RunError::ReapFailed),
            (s, _) => s,
        };
        self.status = next;
    }

    /// Whether the invocation is over.
    pub fn is_done(&self) -> (d: bool)
        ensures
            d == (self.status is Finished || self.status is Failed),
    {
        match self.status {
            EmuStatus::Finished(_) => true,
            EmuStatus::Failed(_) => true,
            _ => false,
        }
    }
}

/// Law: in test mode, an emulator that exits with exactly the configured
/// success code makes the whole invocation finish with exit code 0.
pub proof fn lemma_success_code_passes(success_code: i32)
    ensures
        run_steps(
            EmuStatus::NotStarted,
            seq![EmuEvent::SpawnOk, EmuEvent::ExitCode(success_code)],
            true,
            success_code,
        ) == EmuStatus::Finished(0),
{
    reveal_with_fuel(run_steps, 3);
}

/// Law: in test mode, an emulator that exits with a non-zero code other than
/// the configured success code makes the invocation finish with that raw,
/// non-zero code: the test fails.  (An emulator that exits 0 while a
/// different success code is configured also yields 0: the raw code is
/// passed through, not remapped.)
pub proof fn lemma_wrong_code_fails(success_code: i32, code: i32)
    requires
        code != success_code,
        code != 0,
    ensures
        run_steps(
            EmuStatus::NotStarted,
            seq![EmuEvent::SpawnOk, EmuEvent::ExitCode(code)],
            true,
            success_code,
        ) matches EmuStatus::Finished(c) && c == code && c != 0,
{
    reveal_with_fuel(run_steps, 3);
}

/// Law: in test mode, a wait that expires obliges the caller to kill the
/// emulator and then reap it, and only then does the invocation end, in the
/// timeout error.  No other route reaches that error.
pub proof fn lemma_timeout_kills_and_reaps(success_code: i32)
    ensures
        step(EmuStatus::Running, EmuEvent::WaitExpired, true, success_code) == EmuStatus::Killing,
        action_of(EmuStatus::Killing) == EmuAction::Kill,
        step(EmuStatus::Killing, EmuEvent::KillOk, true, success_code) == EmuStatus::Reaping,
        action_of(EmuStatus::Reaping) == EmuAction::Reap,
        step(EmuStatus::Reaping, EmuEvent::ReapOk, true, success_code)
            == EmuStatus::Failed(RunError::TimedOut),
        run_steps(
            EmuStatus::NotStarted,
            seq![EmuEvent::SpawnOk, EmuEvent::WaitExpired, EmuEvent::KillOk, EmuEvent::ReapOk],
            true,
            success_code,
        ) == EmuStatus::Failed(RunError::TimedOut),
        forall|s: EmuStatus, e: EmuEvent|
            #[trigger] step(s, e, true, success_code) == EmuStatus::Failed(RunError::TimedOut)
                ==> (s == EmuStatus::Reaping && e == EmuEvent::ReapOk)
                    || s == EmuStatus::Failed(RunError::TimedOut),
        forall|s: EmuStatus, e: EmuEvent|
            #[trigger] step(s, e, true, success_code) == EmuStatus::Reaping
                ==> (s == EmuStatus::Killing && e == EmuEvent::KillOk) || s == EmuStatus::Reaping,
{
    reveal_with_fuel(run_steps, 5);
}

/// There is a kill acknowledgement and, later, a reap acknowledgement in
/// `events`.
pub open spec fn has_kill_then_reap(events: Seq<EmuEvent>) -> bool {
    exists|i: int, j: int|
        0 <= i < j < events.len() && events[i] == EmuEvent::KillOk && events[j]
            == EmuEvent::ReapOk
}

/// What reaching the timeout failure from `s` requires of the remaining
/// events: a kill and a reap, less whatever `s` has already passed.
pub open spec fn timeout_obligation(s: EmuStatus, events: Seq<EmuEvent>) -> bool {
    match s {
        EmuStatus::Failed(e) => e == RunError::TimedOut,
        EmuStatus::Reaping => exists|j: int| 0 <= j < events.len() && events[j] == EmuEvent::ReapOk,
        _ => has_kill_then_reap(events),
    }
}

/// From any state, a test-mode run that ends in the timeout failure saw the
/// kill and reap acknowledgements still owed from that state.
proof fn lemma_reaching_timeout(s: EmuStatus, events: Seq<EmuEvent>, success_code: i32)
    requires
        run_steps(s, events, true, success_code) == EmuStatus::Failed(RunError::TimedOut),
    ensures
        timeout_obligation(s, events),
    decreases events.len(),
{
    if events.len() == 0 {
    } else {
        let s2 = step(s, events[0], true, success_code);
        let rest = events.drop_first();
        lemma_reaching_timeout(s2, rest, success_code);
        match s {
            EmuStatus::Failed(_) => {
                assert(s2 == s);
            },
            EmuStatus::Reaping => {
                if events[0] == EmuEvent::ReapOk {
                    assert(events[0] == EmuEvent::ReapOk && 0 < events.len());
                } else {
                    // either the event was refused fatally (no timeout failure
                    // can follow) or the state is unchanged and the reap comes
                    // out of the rest
                    let j = choose|j: int| 0 <= j < rest.len() && rest[j] == EmuEvent::ReapOk;
                    assert(events[j + 1] == EmuEvent::ReapOk);
                }
            },
            EmuStatus::Killing => {
                if events[0] == EmuEvent::KillOk {
                    // the reap is owed from `Reaping` by the rest
                    let j = choose|j: int| 0 <= j < rest.len() && rest[j] == EmuEvent::ReapOk;
                    assert(events[0] == EmuEvent::KillOk && events[j + 1] == EmuEvent::ReapOk
                        && 0 < j + 1 < events.len());
                } else {
                    let (i, j) = choose|i: int, j: int|
                        0 <= i < j < rest.len() && rest[i] == EmuEvent::KillOk && rest[j]
                            == EmuEvent::ReapOk;
                    assert(events[i + 1] == EmuEvent::KillOk && events[j + 1]
                        == EmuEvent::ReapOk);
                }
            },
            _ => {
                if s2 is Failed || s2 is Reaping {
                    // a fatal refusal cannot end in the timeout failure, and
                    // `Reaping` is not reachable in one step from here
                    assert(false);
                } else {
                    let (i, j) = choose|i: int, j: int|
                        0 <= i < j < rest.len() && rest[i] == EmuEvent::KillOk && rest[j]
                            == EmuEvent::ReapOk;
                    assert(events[i + 1] == EmuEvent::KillOk && events[j + 1]
                        == EmuEvent::ReapOk);
                }
            },
        }
    }
}

/// Law: a test-mode invocation that ends in the timeout failure saw the
/// emulator killed and then reaped: there is no route to `TimedOut` around
/// the kill and the reap.
pub proof fn lemma_timeout_failure_saw_kill_and_reap(events: Seq<EmuEvent>, success_code: i32)
    requires
        run_steps(EmuStatus::NotStarted, events, true, success_code) == EmuStatus::Failed(
            RunError::TimedOut,
        ),
    ensures
        has_kill_then_reap(events),
{
    lemma_reaching_timeout(EmuStatus::NotStarted, events, success_code);
}

/// Law: in run mode the emulator's exit status is passed through unchanged,
/// whatever success code was configured: a raw exit code stays itself, and
/// death by signal becomes exit code 1.
pub proof fn lemma_run_mode_passes_code_through(success_code: i32, code: i32)
    ensures
        run_steps(
            EmuStatus::NotStarted,
            seq![EmuEvent::SpawnOk, EmuEvent::ExitCode(code)],
            false,
            success_code,
        ) == EmuStatus::Finished(code),
        run_steps(
            EmuStatus::NotStarted,
            seq![EmuEvent::SpawnOk, EmuEvent::Signalled],
            false,
            success_code,
        ) == EmuStatus::Finished(1),
{
    reveal_with_fuel(run_steps, 3);
}

/// Law: in test mode, an emulator terminated by a signal yields exit code 1.
pub proof fn lemma_signal_fails(success_code: i32)
    ensures
        run_steps(
            EmuStatus::NotStarted,
            seq![EmuEvent::SpawnOk, EmuEvent::Signalled],
            true,
            success_code,
        ) == EmuStatus::Finished(1),
{
    reveal_with_fuel(run_steps, 3);
}

} // verus!
