use vstd::prelude::*;
use vstd::string::*;

verus! {

/// Why the diagnostic sequence could not be carried out. Both are fatal.
#[derive(PartialEq, Eq, Structural, Clone, Copy, Debug)]
pub enum DiagnosticFailure {
    /// The debugger could not be started.
    SpawnFailed,
    /// Waiting for the debugger to exit failed.
    WaitFailed,
}

impl DiagnosticFailure {
    /// The text the harness crashes with.
    pub fn message(&self) -> (r: String)
        ensures
            r@ == (match self {
                DiagnosticFailure::SpawnFailed => "failed to spawn gdb"@,
                DiagnosticFailure::WaitFailed => "gdb failed"@,
            }),
    {
        match self {
            DiagnosticFailure::SpawnFailed => String::from_str("failed to spawn gdb"),
            DiagnosticFailure::WaitFailed => String::from_str("gdb failed"),
        }
    }
}

/// Where the watchdog stands.
#[derive(PartialEq, Eq, Structural, Clone, Copy, Debug)]
pub enum WatchdogState {
    /// Subscribed, suspended until the termination notification arrives.
    Waiting,
    /// Fired; the diagnostic line is being written.
    Announcing,
    /// The process identifier is being read.
    ReadingPid,
    /// The debugger is being started against `pid`.
    Spawning { pid: u32 },
    /// The debugger runs against `pid`; the watchdog blocks until it exits.
    Awaiting { pid: u32 },
    /// The debugger has exited; the process is being aborted.
    Aborting { pid: u32 },
    /// The diagnostic sequence failed after the debugger was aimed at `pid`.
    Failed { pid: u32, failure: DiagnosticFailure },
    /// Cancelled before any notification arrived.
    Cancelled,
}

/// What the watchdog reports to its machine.
#[derive(PartialEq, Eq, Structural, Clone, Copy, Debug)]
pub enum WatchdogEvent {
    /// The termination notification arrived.
    Signal,
    /// The diagnostic line has been written.
    Announced,
    /// The process identifier has been read.
    PidRead(u32),
    /// The debugger has started.
    DebuggerSpawned,
    /// The debugger could not be started.
    DebuggerSpawnFailed,
    /// The debugger has exited.
    DebuggerExited,
    /// Waiting for the debugger failed.
    DebuggerWaitFailed,
    /// The coordinator asks the watchdog to stop.
    Cancel,
}

/// What the watchdog must do next.
#[derive(PartialEq, Eq, Structural, Clone, Copy, Debug)]
pub enum WatchdogAction {
    /// Nothing: the event does not apply in this state.
    Ignore,
    /// Write the diagnostic line to standard error.
    EmitDiagnostic,
    /// Read the current process identifier.
    ReadPid,
    /// Start the debugger against this process identifier.
    SpawnDebugger(u32),
    /// Block until the debugger exits.
    AwaitDebugger,
    /// End the whole process abnormally, with no unwinding.
    AbortProcess,
    /// Crash loudly with this failure.
    Fail(DiagnosticFailure),
    /// End the watchdog quietly.
    Stop,
}

/// One step of the watchdog: its next state and the action to perform.
/// An event that does not apply leaves the state as it is; in particular a
/// watchdog that has fired ignores cancellation.
pub open spec fn watchdog_step(s: WatchdogState, e: WatchdogEvent) -> (WatchdogState, WatchdogAction) {
    match (s, e) {
        (WatchdogState::Waiting, WatchdogEvent::Signal) => (WatchdogState::Announcing, WatchdogAction::EmitDiagnostic),
        (WatchdogState::Waiting, WatchdogEvent::Cancel) => (WatchdogState::Cancelled, WatchdogAction::Stop),
        (WatchdogState::Announcing, WatchdogEvent::Announced) => (WatchdogState::ReadingPid, WatchdogAction::ReadPid),
        (WatchdogState::ReadingPid, WatchdogEvent::PidRead(pid)) => (
            WatchdogState::Spawning { pid },
            WatchdogAction::SpawnDebugger(pid),
        ),
        (WatchdogState::Spawning { pid }, WatchdogEvent::DebuggerSpawned) => (
            WatchdogState::Awaiting { pid },
            WatchdogAction::AwaitDebugger,
        ),
        (WatchdogState::Spawning { pid }, WatchdogEvent::DebuggerSpawnFailed) => (
            WatchdogState::Failed { pid, failure: DiagnosticFailure::SpawnFailed },
            WatchdogAction::Fail(DiagnosticFailure::SpawnFailed),
        ),
        (WatchdogState::Awaiting { pid }, WatchdogEvent::DebuggerExited) => (
            WatchdogState::Aborting { pid },
            WatchdogAction::AbortProcess,
        ),
        (WatchdogState::Awaiting { pid }, WatchdogEvent::DebuggerWaitFailed) => (
            WatchdogState::Failed { pid, failure: DiagnosticFailure::WaitFailed },
            WatchdogAction::Fail(DiagnosticFailure::WaitFailed),
        ),
        _ => (s, WatchdogAction::Ignore),
    }
}

/// The state after the events, from `Waiting`.
pub open spec fn watchdog_state_after(events: Seq<WatchdogEvent>) -> WatchdogState
    decreases events.len(),
{
    if events.len() == 0 {
        WatchdogState::Waiting
    } else {
        watchdog_step(watchdog_state_after(events.drop_last()), events.last()).0
    }
}

/// The actions issued over the events, from `Waiting`, one per event.
pub open spec fn watchdog_actions(events: Seq<WatchdogEvent>) -> Seq<WatchdogAction>
    decreases events.len(),
{
    if events.len() == 0 {
        Seq::empty()
    } else {
        watchdog_actions(events.drop_last()).push(
            watchdog_step(watchdog_state_after(events.drop_last()), events.last()).1,
        )
    }
}

/// The actions that are not `Ignore`, in order.
pub open spec fn effective_watchdog_actions(acts: Seq<WatchdogAction>) -> Seq<WatchdogAction>
    decreases acts.len(),
{
    if acts.len() == 0 {
        Seq::empty()
    } else if acts.last() == WatchdogAction::Ignore {
        effective_watchdog_actions(acts.drop_last())
    } else {
        effective_watchdog_actions(acts.drop_last()).push(acts.last())
    }
}

/// The diagnostic sequence up to and including the start of the debugger.
pub open spec fn fired_prefix(pid: u32) -> Seq<WatchdogAction> {
    seq![WatchdogAction::EmitDiagnostic, WatchdogAction::ReadPid, WatchdogAction::SpawnDebugger(pid)]
}

/// The effective actions that lead from `Waiting` to each state.
pub open spec fn watchdog_script(s: WatchdogState) -> Seq<WatchdogAction> {
    match s {
        WatchdogState::Waiting => Seq::empty(),
        WatchdogState::Cancelled => seq![WatchdogAction::Stop],
        WatchdogState::Announcing => seq![WatchdogAction::EmitDiagnostic],
        WatchdogState::ReadingPid => seq![WatchdogAction::EmitDiagnostic, WatchdogAction::ReadPid],
        WatchdogState::Spawning { pid } => fired_prefix(pid),
        WatchdogState::Awaiting { pid } => fired_prefix(pid).push(WatchdogAction::AwaitDebugger),
        WatchdogState::Aborting { pid } => fired_prefix(pid).push(WatchdogAction::AwaitDebugger).push(
            WatchdogAction::AbortProcess,
        ),
        WatchdogState::Failed { pid, failure } => match failure {
            DiagnosticFailure::SpawnFailed => fired_prefix(pid).push(WatchdogAction::Fail(failure)),
            DiagnosticFailure::WaitFailed => fired_prefix(pid).push(WatchdogAction::AwaitDebugger).push(
                WatchdogAction::Fail(failure),
            ),
        },
    }
}

/// The process identifier the debugger is aimed at, once it is known.
pub open spec fn target_pid(s: WatchdogState) -> Option<u32> {
    match s {
        WatchdogState::Spawning { pid } => Some(pid),
        WatchdogState::Awaiting { pid } => Some(pid),
        WatchdogState::Aborting { pid } => Some(pid),
        WatchdogState::Failed { pid, .. } => Some(pid),
        _ => None,
    }
}

/// Whether the watchdog has received the termination notification.
pub open spec fn has_fired(s: WatchdogState) -> bool {
    s != WatchdogState::Waiting && s != WatchdogState::Cancelled
}

/// Whatever the events and their order, the effective actions issued so far
/// are exactly the script of the state reached: the diagnostic line comes
/// first, then the process identifier is read, the debugger is started against
/// that identifier, waited for, and only then is the process aborted. The
/// debugger is only ever aimed at an identifier that was read.
pub proof fn lemma_watchdog_trace(events: Seq<WatchdogEvent>)
    ensures
        effective_watchdog_actions(watchdog_actions(events)) == watchdog_script(watchdog_state_after(events)),
        watchdog_actions(events).len() == events.len(),
        target_pid(watchdog_state_after(events)) is Some ==> events.contains(
            WatchdogEvent::PidRead(target_pid(watchdog_state_after(events))->0),
        ),
    decreases events.len(),
{
    if events.len() > 0 {
        let prev = events.drop_last();
        lemma_watchdog_trace(prev);
        let acts = watchdog_actions(events);
        assert(acts.drop_last() =~= watchdog_actions(prev));
        let s = watchdog_state_after(prev);
        let e = events.last();
        assert(effective_watchdog_actions(acts) =~= watchdog_script(watchdog_step(s, e).0));
        let t = watchdog_step(s, e).0;
        if target_pid(t) is Some {
            if target_pid(s) is Some {
                let j = choose|j: int|
                    0 <= j < prev.len() && prev[j] == WatchdogEvent::PidRead(target_pid(s)->0);
                assert(events[j] == prev[j]);
            } else {
                assert(events[events.len() - 1] == e);
            }
        }
    }
}

/// A watchdog that has fired cannot be cancelled: a cancellation leaves its
/// state unchanged and asks for nothing.
pub proof fn lemma_fired_ignores_cancel(s: WatchdogState)
    requires
        has_fired(s),
    ensures
        watchdog_step(s, WatchdogEvent::Cancel) == (s, WatchdogAction::Ignore),
{
}

/// Once fired, the watchdog stays fired whatever events follow.
pub proof fn lemma_fired_stays_fired(events: Seq<WatchdogEvent>, k: int)
    requires
        0 <= k <= events.len(),
        has_fired(watchdog_state_after(events.subrange(0, k))),
    ensures
        has_fired(watchdog_state_after(events)),
    decreases events.len() - k,
{
    if k < events.len() {
        let next = events.subrange(0, k + 1);
        assert(next.drop_last() =~= events.subrange(0, k));
        lemma_fired_stays_fired(events, k + 1);
    } else {
        assert(events.subrange(0, k) =~= events);
    }
}

/// Without the termination notification the watchdog never writes the
/// diagnostic line nor starts the debugger: at most it stops when cancelled.
pub proof fn lemma_no_signal_no_diagnostics(events: Seq<WatchdogEvent>)
    requires
        forall|i: int| 0 <= i < events.len() ==> events[i] != WatchdogEvent::Signal,
    ensures
        !has_fired(watchdog_state_after(events)),
        effective_watchdog_actions(watchdog_actions(events)) == seq![WatchdogAction::Stop]
            || effective_watchdog_actions(watchdog_actions(events)) == Seq::<WatchdogAction>::empty(),
        forall|i: int|
            0 <= i < watchdog_actions(events).len() ==> watchdog_actions(events)[i] == WatchdogAction::Ignore
                || watchdog_actions(events)[i] == WatchdogAction::Stop,
    decreases events.len(),
{
    lemma_watchdog_trace(events);
    if events.len() > 0 {
        let prev = events.drop_last();
        lemma_no_signal_no_diagnostics(prev);
        lemma_watchdog_trace(prev);
        assert(watchdog_actions(events).drop_last() =~= watchdog_actions(prev));
        assert forall|i: int| 0 <= i < watchdog_actions(events).len() implies watchdog_actions(events)[i]
            == WatchdogAction::Ignore || watchdog_actions(events)[i] == WatchdogAction::Stop by {
            if i < prev.len() {
                assert(watchdog_actions(events)[i] == watchdog_actions(prev)[i]);
            }
        }
    }
}

/// Once the notification has arrived, a run that ends in abortion has issued
/// exactly this sequence, whatever cancellations came in between: write the
/// diagnostic line, read the process identifier, start the debugger against
/// the identifier that was read, wait for the debugger, abort.
pub proof fn lemma_aborts_after_full_diagnostics(events: Seq<WatchdogEvent>, pid: u32)
    requires
        watchdog_state_after(events) == (WatchdogState::Aborting { pid }),
    ensures
        events.contains(WatchdogEvent::PidRead(pid)),
        effective_watchdog_actions(watchdog_actions(events)) == seq![
            WatchdogAction::EmitDiagnostic,
            WatchdogAction::ReadPid,
            WatchdogAction::SpawnDebugger(pid),
            WatchdogAction::AwaitDebugger,
            WatchdogAction::AbortProcess,
        ],
{
    lemma_watchdog_trace(events);
    assert(watchdog_script(WatchdogState::Aborting { pid }) =~= seq![
        WatchdogAction::EmitDiagnostic,
        WatchdogAction::ReadPid,
        WatchdogAction::SpawnDebugger(pid),
        WatchdogAction::AwaitDebugger,
        WatchdogAction::AbortProcess,
    ]);
}

/// The watchdog of one test invocation.
pub struct Watchdog {
    pub state: WatchdogState,
}

impl Watchdog {
    /// A watchdog whose subscription is in place, waiting for the notification.
    pub fn new() -> (w: Watchdog)
        ensures
            w.state == WatchdogState::Waiting,
    {
        Watchdog { state: WatchdogState::Waiting }
    }

    /// Takes one event and returns the action to perform.
    pub fn on_event(&mut self, e: WatchdogEvent) -> (a: WatchdogAction)
        ensures
            (final(self).state, a) == watchdog_step(old(self).state, e),
    {
        match (self.state, e) {
            (WatchdogState::Waiting, WatchdogEvent::Signal) => {
                self.state = WatchdogState::Announcing;
                WatchdogAction::EmitDiagnostic
            },
            (WatchdogState::Waiting, WatchdogEvent::Cancel) => {
                self.state = WatchdogState::Cancelled;
                WatchdogAction::Stop
            },
            (WatchdogState::Announcing, WatchdogEvent::Announced) => {
                self.state = WatchdogState::ReadingPid;
                WatchdogAction::ReadPid
            },
            (WatchdogState::ReadingPid, WatchdogEvent::PidRead(pid)) => {
                self.state = WatchdogState::Spawning { pid };
                WatchdogAction::SpawnDebugger(pid)
            },
            (WatchdogState::Spawning { pid }, WatchdogEvent::DebuggerSpawned) => {
                self.state = WatchdogState::Awaiting { pid };
                WatchdogAction::AwaitDebugger
            },
            (WatchdogState::Spawning { pid }, WatchdogEvent::DebuggerSpawnFailed) => {
                self.state = WatchdogState::Failed { pid, failure: DiagnosticFailure::SpawnFailed };
                WatchdogAction::Fail(DiagnosticFailure::SpawnFailed)
            },
            (WatchdogState::Awaiting { pid }, WatchdogEvent::DebuggerExited) => {
                self.state = WatchdogState::Aborting { pid };
                WatchdogAction::AbortProcess
            },
            (WatchdogState::Awaiting { pid }, WatchdogEvent::DebuggerWaitFailed) => {
                self.state = WatchdogState::Failed { pid, failure: DiagnosticFailure::WaitFailed };
                WatchdogAction::Fail(DiagnosticFailure::WaitFailed)
            },
            _ => WatchdogAction::Ignore,
        }
    }

    /// Whether the watchdog has received the termination notification.
    pub fn fired(&self) -> (r: bool)
        ensures
            r == has_fired(self.state),
    {
        !matches!(self.state, WatchdogState::Waiting | WatchdogState::Cancelled)
    }
}

} // verus!
