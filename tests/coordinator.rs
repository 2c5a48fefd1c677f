use slatedb_test_guard::coordinator::{Coordinator, CoordinatorAction, CoordinatorEvent, Phase, SetupFailure};

fn drive(c: &mut Coordinator, events: &[CoordinatorEvent]) -> Vec<CoordinatorAction> {
    events.iter().map(|e| c.on_event(*e)).collect()
}

#[test]
fn ungated_success_runs_body_without_watchdog() {
    let mut c = Coordinator::new(false);
    let acts = drive(&mut c, &[CoordinatorEvent::Start, CoordinatorEvent::BodyCompleted]);
    assert_eq!(acts, vec![CoordinatorAction::RunBody, CoordinatorAction::ReturnOutcome]);
    assert!(c.can_return());
    let out: Result<(), String> = c.finish(Ok(()));
    assert_eq!(out, Ok(()));
    assert_eq!(c.phase, Phase::Done);
}

#[test]
fn ungated_never_subscribes_whatever_the_events() {
    let mut c = Coordinator::new(false);
    let acts = drive(
        &mut c,
        &[
            CoordinatorEvent::Subscribed,
            CoordinatorEvent::Start,
            CoordinatorEvent::WatchdogSpawned,
            CoordinatorEvent::SubscriptionFailed,
            CoordinatorEvent::BodyCompleted,
            CoordinatorEvent::WatchdogCancelled,
            CoordinatorEvent::Start,
        ],
    );
    for a in &acts {
        assert!(!matches!(
            a,
            CoordinatorAction::Subscribe
                | CoordinatorAction::SpawnWatchdog
                | CoordinatorAction::CancelWatchdog
                | CoordinatorAction::FailSetup(_)
        ));
    }
    let effective: Vec<_> = acts.into_iter().filter(|a| *a != CoordinatorAction::Ignore).collect();
    assert_eq!(effective, vec![CoordinatorAction::RunBody, CoordinatorAction::ReturnOutcome]);
}

#[test]
fn gated_completion_arms_then_disarms() {
    let mut c = Coordinator::new(true);
    let acts = drive(
        &mut c,
        &[
            CoordinatorEvent::Start,
            CoordinatorEvent::Subscribed,
            CoordinatorEvent::WatchdogSpawned,
            CoordinatorEvent::BodyCompleted,
        ],
    );
    assert_eq!(
        acts,
        vec![
            CoordinatorAction::Subscribe,
            CoordinatorAction::SpawnWatchdog,
            CoordinatorAction::RunBody,
            CoordinatorAction::CancelWatchdog,
        ]
    );
    assert!(!c.can_return());
    assert_eq!(c.on_event(CoordinatorEvent::WatchdogCancelled), CoordinatorAction::ReturnOutcome);
    assert_eq!(c.phase, Phase::WatchdogDisarmed);
    assert!(c.can_return());
    let out: Result<u32, String> = c.finish(Ok(17));
    assert_eq!(out, Ok(17));
    assert_eq!(c.phase, Phase::Done);
}

#[test]
fn gated_body_waits_for_watchdog() {
    let mut c = Coordinator::new(true);
    assert_eq!(c.on_event(CoordinatorEvent::Start), CoordinatorAction::Subscribe);
    assert_eq!(c.on_event(CoordinatorEvent::BodyCompleted), CoordinatorAction::Ignore);
    assert_eq!(c.on_event(CoordinatorEvent::WatchdogSpawned), CoordinatorAction::Ignore);
    assert_eq!(c.phase, Phase::Subscribing);
    assert_eq!(c.on_event(CoordinatorEvent::Subscribed), CoordinatorAction::SpawnWatchdog);
    assert_eq!(c.on_event(CoordinatorEvent::WatchdogSpawned), CoordinatorAction::RunBody);
    assert_eq!(c.phase, Phase::TestRunning);
}

#[test]
fn subscription_failure_is_fatal_before_body() {
    let mut c = Coordinator::new(true);
    assert_eq!(c.on_event(CoordinatorEvent::Start), CoordinatorAction::Subscribe);
    let a = c.on_event(CoordinatorEvent::SubscriptionFailed);
    assert_eq!(a, CoordinatorAction::FailSetup(SetupFailure));
    assert_eq!(c.phase, Phase::SetupFailed);
    assert_eq!(c.on_event(CoordinatorEvent::WatchdogSpawned), CoordinatorAction::Ignore);
    assert_eq!(c.on_event(CoordinatorEvent::BodyCompleted), CoordinatorAction::Ignore);
    assert!(!c.can_return());
    assert_eq!(SetupFailure.message(), "test harness failed to create SIGTERM handler");
}

#[test]
fn failing_test_outcome_is_returned_unchanged() {
    let mut c = Coordinator::new(true);
    drive(
        &mut c,
        &[
            CoordinatorEvent::Start,
            CoordinatorEvent::Subscribed,
            CoordinatorEvent::WatchdogSpawned,
            CoordinatorEvent::BodyCompleted,
            CoordinatorEvent::WatchdogCancelled,
        ],
    );
    let err: Result<u8, String> = Err(String::from("assertion failed: left == right"));
    let out = c.finish(err.clone());
    assert_eq!(out, err);
}

#[test]
fn redundant_cancellation_is_ignored() {
    let mut c = Coordinator::new(true);
    drive(
        &mut c,
        &[
            CoordinatorEvent::Start,
            CoordinatorEvent::Subscribed,
            CoordinatorEvent::WatchdogSpawned,
            CoordinatorEvent::BodyCompleted,
            CoordinatorEvent::WatchdogCancelled,
        ],
    );
    assert_eq!(c.on_event(CoordinatorEvent::WatchdogCancelled), CoordinatorAction::Ignore);
    assert_eq!(c.phase, Phase::WatchdogDisarmed);
    let mut u = Coordinator::new(false);
    drive(&mut u, &[CoordinatorEvent::Start, CoordinatorEvent::BodyCompleted]);
    assert_eq!(u.on_event(CoordinatorEvent::WatchdogCancelled), CoordinatorAction::Ignore);
    assert_eq!(u.phase, Phase::TestCompleted);
}
