use vstd::prelude::*;
use vstd::string::*;

verus! {

/// The termination notification could not be subscribed to. Fatal: the test
/// must not run without its watchdog.
#[derive(PartialEq, Eq, Structural, Clone, Copy, Debug)]
pub struct SetupFailure;

impl SetupFailure {
    /// The text the test fails with.
    pub fn message(&self) -> (r: String)
        ensures
            r@ == "test harness failed to create SIGTERM handler"@,
    {
        String::from_str("test harness failed to create SIGTERM handler")
    }
}

/// Where one guarded test invocation stands.
#[derive(PartialEq, Eq, Structural, Clone, Copy, Debug)]
pub enum Phase {
    /// Nothing has happened yet.
    Idle,
    /// Diagnostics are enabled; the subscription is being made.
    Subscribing,
    /// The subscription is in place; the watchdog is being spawned.
    WatchdogArmed,
    /// The test body runs.
    TestRunning,
    /// The test body has completed.
    TestCompleted,
    /// The watchdog has been cancelled after the body completed.
    WatchdogDisarmed,
    /// The outcome has been handed back.
    Done,
    /// The subscription failed; the body never runs.
    SetupFailed,
}

/// What the coordinator is told.
#[derive(PartialEq, Eq, Structural, Clone, Copy, Debug)]
pub enum CoordinatorEvent {
    /// The test invocation begins.
    Start,
    /// The subscription is in place.
    Subscribed,
    /// The subscription could not be made.
    SubscriptionFailed,
    /// The watchdog has been spawned.
    WatchdogSpawned,
    /// The test body has completed, successfully or not.
    BodyCompleted,
    /// Cancellation of the watchdog has been requested.
    WatchdogCancelled,
}

/// What the coordinator asks for next.
#[derive(PartialEq, Eq, Structural, Clone, Copy, Debug)]
pub enum CoordinatorAction {
    /// Nothing: the event does not apply in this phase.
    Ignore,
    /// Subscribe to the termination notification.
    Subscribe,
    /// Spawn the watchdog, handing it the subscription.
    SpawnWatchdog,
    /// Run the test body to completion.
    RunBody,
    /// Request cancellation of the watchdog; a no-op if it has fired or ended.
    CancelWatchdog,
    /// Hand the test outcome back unchanged.
    ReturnOutcome,
    /// Fail the test before its body starts.
    FailSetup(SetupFailure),
}

/// One step of the coordinator; `gate` tells whether diagnostics are enabled.
pub open spec fn coordinator_step(gate: bool, p: Phase, e: CoordinatorEvent) -> (Phase, CoordinatorAction) {
    match (p, e) {
        (Phase::Idle, CoordinatorEvent::Start) => if gate {
            (Phase::Subscribing, CoordinatorAction::Subscribe)
        } else {
            (Phase::TestRunning, CoordinatorAction::RunBody)
        },
        (Phase::Subscribing, CoordinatorEvent::Subscribed) => (Phase::WatchdogArmed, CoordinatorAction::SpawnWatchdog),
        (Phase::Subscribing, CoordinatorEvent::SubscriptionFailed) => (
            Phase::SetupFailed,
            CoordinatorAction::FailSetup(SetupFailure),
        ),
        (Phase::WatchdogArmed, CoordinatorEvent::WatchdogSpawned) => (Phase::TestRunning, CoordinatorAction::RunBody),
        (Phase::TestRunning, CoordinatorEvent::BodyCompleted) => if gate {
            (Phase::TestCompleted, CoordinatorAction::CancelWatchdog)
        } else {
            (Phase::TestCompleted, CoordinatorAction::ReturnOutcome)
        },
        (Phase::TestCompleted, CoordinatorEvent::WatchdogCancelled) => if gate {
            (Phase::WatchdogDisarmed, CoordinatorAction::ReturnOutcome)
        } else {
            (p, CoordinatorAction::Ignore)
        },
        _ => (p, CoordinatorAction::Ignore),
    }
}

/// Whether the outcome may be handed back in phase `p`.
pub open spec fn ready_to_return(gate: bool, p: Phase) -> bool {
    if gate {
        p == Phase::WatchdogDisarmed
    } else {
        p == Phase::TestCompleted
    }
}

/// The phase after the events, from `Idle`.
pub open spec fn phase_after(gate: bool, events: Seq<CoordinatorEvent>) -> Phase
    decreases events.len(),
{
    if events.len() == 0 {
        Phase::Idle
    } else {
        coordinator_step(gate, phase_after(gate, events.drop_last()), events.last()).0
    }
}

/// The actions issued over the events, from `Idle`, one per event.
pub open spec fn coordinator_actions(gate: bool, events: Seq<CoordinatorEvent>) -> Seq<CoordinatorAction>
    decreases events.len(),
{
    if events.len() == 0 {
        Seq::empty()
    } else {
        coordinator_actions(gate, events.drop_last()).push(
            coordinator_step(gate, phase_after(gate, events.drop_last()), events.last()).1,
        )
    }
}

/// The actions that are not `Ignore`, in order.
pub open spec fn effective_actions(acts: Seq<CoordinatorAction>) -> Seq<CoordinatorAction>
    decreases acts.len(),
{
    if acts.len() == 0 {
        Seq::empty()
    } else if acts.last() == CoordinatorAction::Ignore {
        effective_actions(acts.drop_last())
    } else {
        effective_actions(acts.drop_last()).push(acts.last())
    }
}

/// The actions that arm the watchdog before the body runs.
pub open spec fn arming() -> Seq<CoordinatorAction> {
    seq![CoordinatorAction::Subscribe, CoordinatorAction::SpawnWatchdog]
}

/// The effective actions that lead from `Idle` to each phase.
pub open spec fn coordinator_script(gate: bool, p: Phase) -> Seq<CoordinatorAction> {
    let run = seq![CoordinatorAction::RunBody];
    match p {
        Phase::Idle => Seq::empty(),
        Phase::Subscribing => seq![CoordinatorAction::Subscribe],
        Phase::SetupFailed => seq![CoordinatorAction::Subscribe, CoordinatorAction::FailSetup(SetupFailure)],
        Phase::WatchdogArmed => arming(),
        Phase::TestRunning => if gate {
            arming() + run
        } else {
            run
        },
        Phase::TestCompleted => if gate {
            (arming() + run).push(CoordinatorAction::CancelWatchdog)
        } else {
            run.push(CoordinatorAction::ReturnOutcome)
        },
        Phase::WatchdogDisarmed => (arming() + run).push(CoordinatorAction::CancelWatchdog).push(
            CoordinatorAction::ReturnOutcome,
        ),
        Phase::Done => Seq::empty(),
    }
}

/// The phases that events alone can reach, with diagnostics enabled or not.
pub open spec fn reachable(gate: bool, p: Phase) -> bool {
    if gate {
        p != Phase::Done
    } else {
        p == Phase::Idle || p == Phase::TestRunning || p == Phase::TestCompleted
    }
}

/// Whatever the events and their order, the effective actions issued so far
/// are exactly the script of the phase reached.
pub proof fn lemma_coordinator_trace(gate: bool, events: Seq<CoordinatorEvent>)
    ensures
        effective_actions(coordinator_actions(gate, events)) == coordinator_script(gate, phase_after(gate, events)),
        reachable(gate, phase_after(gate, events)),
        coordinator_actions(gate, events).len() == events.len(),
    decreases events.len(),
{
    if events.len() > 0 {
        let prev = events.drop_last();
        lemma_coordinator_trace(gate, prev);
        let acts = coordinator_actions(gate, events);
        assert(acts.drop_last() =~= coordinator_actions(gate, prev));
        let p = phase_after(gate, prev);
        let e = events.last();
        assert(effective_actions(acts) =~= coordinator_script(gate, coordinator_step(gate, p, e).0));
    }
}

/// Whether an action creates or touches the watchdog or its subscription.
pub open spec fn touches_watchdog(a: CoordinatorAction) -> bool {
    match a {
        CoordinatorAction::Subscribe | CoordinatorAction::SpawnWatchdog | CoordinatorAction::CancelWatchdog
        | CoordinatorAction::FailSetup(_) => true,
        _ => false,
    }
}

/// With the CI indicator absent no subscription and no watchdog are ever
/// created or cancelled: the only effective actions are running the body and
/// handing back its outcome, as the unwrapped test would.
pub proof fn lemma_ungated_never_arms(events: Seq<CoordinatorEvent>)
    ensures
        forall|i: int|
            0 <= i < coordinator_actions(false, events).len() ==> !touches_watchdog(
                #[trigger] coordinator_actions(false, events)[i],
            ),
        seq![CoordinatorAction::RunBody, CoordinatorAction::ReturnOutcome].is_prefix_of(
            effective_actions(coordinator_actions(false, events)),
        ) || effective_actions(coordinator_actions(false, events)).is_prefix_of(
            seq![CoordinatorAction::RunBody, CoordinatorAction::ReturnOutcome],
        ),
    decreases events.len(),
{
    lemma_coordinator_trace(false, events);
    let full = seq![CoordinatorAction::RunBody, CoordinatorAction::ReturnOutcome];
    let eff = effective_actions(coordinator_actions(false, events));
    assert(eff.is_prefix_of(full)) by {
        assert(eff =~= full.subrange(0, eff.len() as int));
    }
    if events.len() > 0 {
        let prev = events.drop_last();
        lemma_ungated_never_arms(prev);
        lemma_coordinator_trace(false, prev);
        let acts = coordinator_actions(false, events);
        assert(acts.drop_last() =~= coordinator_actions(false, prev));
        assert forall|i: int| 0 <= i < acts.len() implies !touches_watchdog(#[trigger] acts[i]) by {
            if i < prev.len() {
                assert(acts[i] == coordinator_actions(false, prev)[i]);
            }
        }
    }
}

/// With the CI indicator present, a test that completes normally has had its
/// watchdog created exactly once, before the body started, and cancelled
/// exactly once, after the body completed, before the outcome is handed back.
pub proof fn lemma_gated_completion_arms_then_disarms(events: Seq<CoordinatorEvent>)
    requires
        ready_to_return(true, phase_after(true, events)),
    ensures
        effective_actions(coordinator_actions(true, events)) == seq![
            CoordinatorAction::Subscribe,
            CoordinatorAction::SpawnWatchdog,
            CoordinatorAction::RunBody,
            CoordinatorAction::CancelWatchdog,
            CoordinatorAction::ReturnOutcome,
        ],
{
    lemma_coordinator_trace(true, events);
    assert(coordinator_script(true, Phase::WatchdogDisarmed) =~= seq![
        CoordinatorAction::Subscribe,
        CoordinatorAction::SpawnWatchdog,
        CoordinatorAction::RunBody,
        CoordinatorAction::CancelWatchdog,
        CoordinatorAction::ReturnOutcome,
    ]);
}

/// With the CI indicator present, the body runs only after the subscription
/// is in place and the watchdog spawned; if the subscription fails the body
/// never runs.
pub proof fn lemma_gated_body_after_subscription(events: Seq<CoordinatorEvent>)
    ensures
        effective_actions(coordinator_actions(true, events)).contains(CoordinatorAction::RunBody) ==> arming()
            .is_prefix_of(effective_actions(coordinator_actions(true, events))),
        phase_after(true, events) == Phase::SetupFailed ==> !effective_actions(
            coordinator_actions(true, events),
        ).contains(CoordinatorAction::RunBody),
{
    lemma_coordinator_trace(true, events);
    let eff = effective_actions(coordinator_actions(true, events));
    let p = phase_after(true, events);
    if eff.contains(CoordinatorAction::RunBody) {
        let i = choose|i: int| 0 <= i < eff.len() && eff[i] == CoordinatorAction::RunBody;
        assert(p == Phase::TestRunning || p == Phase::TestCompleted || p == Phase::WatchdogDisarmed) by {
            if p == Phase::SetupFailed || p == Phase::Subscribing || p == Phase::WatchdogArmed || p
                == Phase::Idle {
                assert(eff[i] != CoordinatorAction::RunBody);
            }
        }
        assert(arming() =~= eff.subrange(0, 2));
    }
    if p == Phase::SetupFailed {
        assert forall|i: int| 0 <= i < eff.len() implies eff[i] != CoordinatorAction::RunBody by {}
    }
}

/// The coordinator of one guarded test invocation.
pub struct Coordinator {
    pub gate: bool,
    pub phase: Phase,
}

impl Coordinator {
    /// A coordinator in `Idle`; `gate` tells whether diagnostics are enabled.
    pub fn new(gate: bool) -> (c: Coordinator)
        ensures
            c.gate == gate,
            c.phase == Phase::Idle,
    {
        Coordinator { gate, phase: Phase::Idle }
    }

    /// Takes one event and returns the action to perform.
    pub fn on_event(&mut self, e: CoordinatorEvent) -> (a: CoordinatorAction)
        ensures
            final(self).gate == old(self).gate,
            (final(self).phase, a) == coordinator_step(old(self).gate, old(self).phase, e),
    {
        match (self.phase, e) {
            (Phase::Idle, CoordinatorEvent::Start) => {
                if self.gate {
                    self.phase = Phase::Subscribing;
                    CoordinatorAction::Subscribe
                } else {
                    self.phase = Phase::TestRunning;
                    CoordinatorAction::RunBody
                }
            },
            (Phase::Subscribing, CoordinatorEvent::Subscribed) => {
                self.phase = Phase::WatchdogArmed;
                CoordinatorAction::SpawnWatchdog
            },
            (Phase::Subscribing, CoordinatorEvent::SubscriptionFailed) => {
                self.phase = Phase::SetupFailed;
                CoordinatorAction::FailSetup(SetupFailure)
            },
            (Phase::WatchdogArmed, CoordinatorEvent::WatchdogSpawned) => {
                self.phase = Phase::TestRunning;
                CoordinatorAction::RunBody
            },
            (Phase::TestRunning, CoordinatorEvent::BodyCompleted) => {
                self.phase = Phase::TestCompleted;
                if self.gate {
                    CoordinatorAction::CancelWatchdog
                } else {
                    CoordinatorAction::ReturnOutcome
                }
            },
            (Phase::TestCompleted, CoordinatorEvent::WatchdogCancelled) => {
                if self.gate {
                    self.phase = Phase::WatchdogDisarmed;
                    CoordinatorAction::ReturnOutcome
                } else {
                    CoordinatorAction::Ignore
                }
            },
            _ => CoordinatorAction::Ignore,
        }
    }

    /// Whether the outcome may now be handed back.
    pub fn can_return(&self) -> (r: bool)
        ensures
            r == ready_to_return(self.gate, self.phase),
    {
        if self.gate {
            matches!(self.phase, Phase::WatchdogDisarmed)
        } else {
            matches!(self.phase, Phase::TestCompleted)
        }
    }

    /// Hands the test outcome back exactly as the body produced it.
    pub fn finish<T>(&mut self, outcome: T) -> (r: T)
        requires
            ready_to_return(old(self).gate, old(self).phase),
        ensures
            r == outcome,
            final(self).gate == old(self).gate,
            final(self).phase == Phase::Done,
    {
        self.phase = Phase::Done;
        outcome
    }
}

} // verus!
