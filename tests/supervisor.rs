use automat_core::{
    dispatch, exit_event, Error, RunAction, RunEvent, RunPhase, ShutdownCause, Supervisor,
    TaskFate, TriggerEvent, SHUTDOWN_GRACE_SECS,
};

fn spawn_all(s: &mut Supervisor, n: usize) {
    for i in 0..n {
        assert_eq!(s.action(), RunAction::Spawn(i));
        s.step(RunEvent::Spawned);
    }
    assert_eq!(s.action(), RunAction::AwaitShutdown);
}

#[test]
fn spawns_one_task_pair_per_trigger() {
    for n in 0..6usize {
        let mut s = Supervisor::new(n);
        spawn_all(&mut s, n);
        assert_eq!(s.spawned, n);
        assert_eq!(s.fates.len(), n);
        assert!(s.fates.iter().all(|f| *f == TaskFate::Running));
        s.step(RunEvent::Spawned);
        assert_eq!(s.spawned, n);
    }
}

#[test]
fn grace_period_is_two_seconds() {
    assert_eq!(SHUTDOWN_GRACE_SECS, 2);
}

#[test]
fn interval_trigger_fatal_on_third_tick_ends_run() {
    // One interval trigger; its callback reports a fatal error on the third tick.
    let mut s = Supervisor::new(1);
    spawn_all(&mut s, 1);
    let mut handled: Vec<String> = Vec::new();
    let mut shutdown_requested = false;
    for tick in 1..=3 {
        if tick == 3 {
            let d = dispatch(TriggerEvent::ErrorFatal(Error::CallbackError("tick 3".to_string())));
            if let Some(r) = d.report {
                assert!(r.fatal);
                if let Error::CallbackError(m) = r.error {
                    handled.push(m);
                }
            }
            shutdown_requested |= d.request_shutdown;
        }
    }
    assert_eq!(handled, vec!["tick 3".to_string()]);
    assert!(shutdown_requested);
    s.step(RunEvent::CancellationObserved);
    assert_eq!(s.cause, Some(ShutdownCause::Internal));
    assert_eq!(s.action(), RunAction::CancelAll);
    s.step(RunEvent::Cancelled);
    assert_eq!(s.action(), RunAction::AwaitTrigger(0));
    s.step(RunEvent::TriggerExited);
    assert_eq!(s.action(), RunAction::AwaitConsumers);
    s.step(RunEvent::ConsumersDrained);
    assert_eq!(s.action(), RunAction::Finish);
    assert!(s.outcome().is_ok());
}

#[test]
fn trigger_finishing_early_cancels_the_other() {
    // Two triggers; the first returns Ok from start at once.
    let mut s = Supervisor::new(2);
    spawn_all(&mut s, 2);
    let ev = exit_event(Ok(()), false).unwrap();
    assert!(matches!(ev, TriggerEvent::Stop));
    let d = dispatch(ev);
    assert!(d.report.is_none());
    assert!(d.request_shutdown);
    s.step(RunEvent::CancellationObserved);
    assert_eq!(s.action(), RunAction::CancelAll);
    s.step(RunEvent::Cancelled);
    assert_eq!(s.action(), RunAction::AwaitTrigger(0));
    s.step(RunEvent::TriggerExited);
    assert_eq!(s.action(), RunAction::AwaitTrigger(1));
    s.step(RunEvent::TriggerExited);
    assert_eq!(s.fates, vec![TaskFate::Exited, TaskFate::Exited]);
    assert_eq!(s.action(), RunAction::AwaitConsumers);
    s.step(RunEvent::ConsumersDrained);
    assert_eq!(s.phase, RunPhase::Finished);
    assert!(s.outcome().is_ok());
}

#[test]
fn busy_trigger_is_aborted_after_grace_period() {
    // A trigger that never looks at the cancellation signal.
    let mut s = Supervisor::new(1);
    spawn_all(&mut s, 1);
    s.step(RunEvent::ShutdownSignal(Ok(())));
    assert_eq!(s.cause, Some(ShutdownCause::External));
    assert_eq!(s.action(), RunAction::CancelAll);
    s.step(RunEvent::Cancelled);
    assert_eq!(s.action(), RunAction::AwaitTrigger(0));
    s.step(RunEvent::GraceElapsed);
    assert_eq!(s.fates, vec![TaskFate::Overdue]);
    assert_eq!(s.action(), RunAction::Abort(0));
    s.step(RunEvent::Aborted);
    assert_eq!(s.fates, vec![TaskFate::Aborted]);
    assert_eq!(s.action(), RunAction::AwaitConsumers);
    s.step(RunEvent::ConsumersDrained);
    assert_eq!(s.action(), RunAction::Finish);
    assert!(s.outcome().is_ok());
}

#[test]
fn mixed_triggers_settle_one_after_the_other() {
    let mut s = Supervisor::new(3);
    spawn_all(&mut s, 3);
    s.step(RunEvent::CancellationObserved);
    s.step(RunEvent::Cancelled);
    s.step(RunEvent::TriggerExited);
    s.step(RunEvent::GraceElapsed);
    // A late exit report does not skip the abort of an overdue task.
    s.step(RunEvent::TriggerExited);
    assert_eq!(s.action(), RunAction::Abort(1));
    s.step(RunEvent::Aborted);
    s.step(RunEvent::TriggerExited);
    assert_eq!(s.fates, vec![TaskFate::Exited, TaskFate::Aborted, TaskFate::Exited]);
    assert_eq!(s.action(), RunAction::AwaitConsumers);
}

#[test]
fn failed_shutdown_signal_is_the_outcome() {
    let mut s = Supervisor::new(0);
    assert_eq!(s.action(), RunAction::AwaitShutdown);
    let err = std::io::Error::new(std::io::ErrorKind::Other, "no signal handler");
    s.step(RunEvent::ShutdownSignal(Err(Error::IoError(err))));
    // Only the first decision counts.
    s.step(RunEvent::CancellationObserved);
    assert_eq!(s.cause, Some(ShutdownCause::External));
    s.step(RunEvent::Cancelled);
    assert_eq!(s.action(), RunAction::AwaitConsumers);
    s.step(RunEvent::ConsumersDrained);
    assert!(matches!(s.outcome(), Err(Error::IoError(_))));
}

#[test]
fn out_of_phase_observations_change_nothing() {
    let mut s = Supervisor::new(1);
    s.step(RunEvent::Cancelled);
    s.step(RunEvent::TriggerExited);
    s.step(RunEvent::ConsumersDrained);
    assert_eq!(s.phase, RunPhase::Spawning);
    assert_eq!(s.action(), RunAction::Spawn(0));
    assert!(s.outcome().is_ok());
}
