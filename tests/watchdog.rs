use slatedb_test_guard::debugger::{debugger_command, decimal, diagnostic_line};
use slatedb_test_guard::gate::{ci_indicator, enabled};
use slatedb_test_guard::watchdog::{DiagnosticFailure, Watchdog, WatchdogAction, WatchdogEvent, WatchdogState};

fn fire(w: &mut Watchdog, pid: u32) {
    assert_eq!(w.on_event(WatchdogEvent::Signal), WatchdogAction::EmitDiagnostic);
    assert_eq!(w.on_event(WatchdogEvent::Announced), WatchdogAction::ReadPid);
    assert_eq!(w.on_event(WatchdogEvent::PidRead(pid)), WatchdogAction::SpawnDebugger(pid));
}

#[test]
fn gate_follows_presence_only() {
    assert_eq!(ci_indicator(), "CI");
    assert!(enabled(&Some(String::from("true"))));
    assert!(enabled(&Some(String::new())));
    assert!(enabled(&Some(0u8)));
    assert!(!enabled(&None::<String>));
}

#[test]
fn decimal_writes_digits() {
    assert_eq!(decimal(0), "0");
    assert_eq!(decimal(7), "7");
    assert_eq!(decimal(10), "10");
    assert_eq!(decimal(4242), "4242");
    assert_eq!(decimal(u32::MAX), "4294967295");
}

#[test]
fn debugger_command_targets_pid() {
    let c = debugger_command(31337);
    assert_eq!(c.program, "sudo");
    assert_eq!(c.args, vec!["gdb", "-p", "31337", "-ex", "thread apply all bt"]);
}

#[test]
fn signal_drives_full_diagnostic_sequence() {
    let mut w = Watchdog::new();
    assert!(!w.fired());
    fire(&mut w, 4242);
    assert!(w.fired());
    assert_eq!(w.on_event(WatchdogEvent::DebuggerSpawned), WatchdogAction::AwaitDebugger);
    assert_eq!(w.on_event(WatchdogEvent::DebuggerExited), WatchdogAction::AbortProcess);
    assert_eq!(w.state, WatchdogState::Aborting { pid: 4242 });
}

#[test]
fn scenario_signal_while_body_sleeps() {
    // CI set: the watchdog fires while the body is still suspended, and a
    // cancellation racing it changes nothing.
    let mut w = Watchdog::new();
    assert_eq!(w.on_event(WatchdogEvent::Signal), WatchdogAction::EmitDiagnostic);
    assert_eq!(
        diagnostic_line(),
        "SIGTERM received; collecting backtraces from running threads with gdb..."
    );
    assert_eq!(w.on_event(WatchdogEvent::Cancel), WatchdogAction::Ignore);
    assert_eq!(w.on_event(WatchdogEvent::Announced), WatchdogAction::ReadPid);
    let pid: u32 = 987;
    let a = w.on_event(WatchdogEvent::PidRead(pid));
    assert_eq!(a, WatchdogAction::SpawnDebugger(987));
    if let WatchdogAction::SpawnDebugger(p) = a {
        assert_eq!(debugger_command(p).args[2], "987");
    }
    assert_eq!(w.on_event(WatchdogEvent::DebuggerSpawned), WatchdogAction::AwaitDebugger);
    assert_eq!(w.on_event(WatchdogEvent::Cancel), WatchdogAction::Ignore);
    assert_eq!(w.on_event(WatchdogEvent::DebuggerExited), WatchdogAction::AbortProcess);
}

#[test]
fn cancel_before_signal_stops_quietly() {
    let mut w = Watchdog::new();
    assert_eq!(w.on_event(WatchdogEvent::Cancel), WatchdogAction::Stop);
    assert_eq!(w.state, WatchdogState::Cancelled);
    assert_eq!(w.on_event(WatchdogEvent::Cancel), WatchdogAction::Ignore);
    assert_eq!(w.on_event(WatchdogEvent::Signal), WatchdogAction::Ignore);
    assert!(!w.fired());
}

#[test]
fn events_out_of_order_are_ignored() {
    let mut w = Watchdog::new();
    assert_eq!(w.on_event(WatchdogEvent::Announced), WatchdogAction::Ignore);
    assert_eq!(w.on_event(WatchdogEvent::PidRead(5)), WatchdogAction::Ignore);
    assert_eq!(w.on_event(WatchdogEvent::DebuggerExited), WatchdogAction::Ignore);
    assert_eq!(w.state, WatchdogState::Waiting);
}

#[test]
fn debugger_spawn_failure_is_loud() {
    let mut w = Watchdog::new();
    fire(&mut w, 12);
    let a = w.on_event(WatchdogEvent::DebuggerSpawnFailed);
    assert_eq!(a, WatchdogAction::Fail(DiagnosticFailure::SpawnFailed));
    assert_eq!(DiagnosticFailure::SpawnFailed.message(), "failed to spawn gdb");
    assert_eq!(w.on_event(WatchdogEvent::DebuggerExited), WatchdogAction::Ignore);
}

#[test]
fn debugger_wait_failure_is_loud() {
    let mut w = Watchdog::new();
    fire(&mut w, 12);
    assert_eq!(w.on_event(WatchdogEvent::DebuggerSpawned), WatchdogAction::AwaitDebugger);
    let a = w.on_event(WatchdogEvent::DebuggerWaitFailed);
    assert_eq!(a, WatchdogAction::Fail(DiagnosticFailure::WaitFailed));
    assert_eq!(DiagnosticFailure::WaitFailed.message(), "gdb failed");
    assert_eq!(
        w.state,
        WatchdogState::Failed { pid: 12, failure: DiagnosticFailure::WaitFailed }
    );
}
