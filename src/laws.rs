use vstd::prelude::*;
use crate::error::Error;
use crate::triggers::missing_paths_event_of;
use crate::trigger_loop::{loop_step_of, LoopAction, LoopEvent};
use crate::event::{
    dispatch_of, exit_event_of, is_delivery_outcome, Dispatch, Report, SendFailure, TriggerEvent,
};
use crate::supervisor::{
    action_of, advance, initial, next_state, settled, well_formed, RunAction, RunEvent, RunPhase,
    ShutdownCause, SupervisorView, TaskFate,
};

verus! {

/// The state of a run after a sequence of observations.
pub open spec fn run_events(v: SupervisorView, evs: Seq<RunEvent>) -> SupervisorView
    decreases evs.len(),
{
    if evs.len() == 0 {
        v
    } else {
        next_state(run_events(v, evs.drop_last()), evs.last())
    }
}

/// The triggers whose tasks were spawned along a sequence of observations,
/// in the order in which the runner was told to spawn them.
pub open spec fn spawns_along(v: SupervisorView, evs: Seq<RunEvent>) -> Seq<nat>
    decreases evs.len(),
{
    if evs.len() == 0 {
        Seq::empty()
    } else {
        let before = run_events(v, evs.drop_last());
        let prev = spawns_along(v, evs.drop_last());
        if before.phase == RunPhase::Spawning && evs.last() is Spawned {
            match action_of(before) {
                RunAction::Spawn(i) => prev.push(i as nat),
                _ => prev,
            }
        } else {
            prev
        }
    }
}

proof fn lemma_run_events_well_formed(v: SupervisorView, evs: Seq<RunEvent>)
    requires
        well_formed(v),
    ensures
        well_formed(run_events(v, evs)),
        run_events(v, evs).triggers == v.triggers,
    decreases evs.len(),
{
    if evs.len() > 0 {
        lemma_run_events_well_formed(v, evs.drop_last());
        crate::supervisor::lemma_next_state_well_formed(run_events(v, evs.drop_last()), evs.last());
    }
}

/// A run over `n` triggers spawns the tasks of each trigger exactly once,
/// trigger 0 first, and has spawned all `n` (one trigger task and one
/// consumer task each) before it waits for a shutdown.
pub proof fn lemma_each_trigger_spawned_once(n: nat, evs: Seq<RunEvent>)
    requires
        n <= usize::MAX,
    ensures
        ({
            let s = run_events(initial(n), evs);
            let sp = spawns_along(initial(n), evs);
            &&& sp.len() == s.spawned
            &&& forall|i: int| 0 <= i < sp.len() ==> sp[i] == i
            &&& s.spawned <= n
            &&& s.phase != RunPhase::Spawning ==> s.spawned == n
        }),
    decreases evs.len(),
{
    crate::supervisor::lemma_initial_well_formed(n);
    lemma_run_events_well_formed(initial(n), evs);
    if evs.len() > 0 {
        lemma_each_trigger_spawned_once(n, evs.drop_last());
        lemma_run_events_well_formed(initial(n), evs.drop_last());
    }
}

/// Once a run drains its consumers, every trigger task has ended, on its own
/// or by force; and a task is only ever ended by force once it has outlived
/// the grace period.
pub proof fn lemma_shutdown_settles_every_trigger(n: nat, evs: Seq<RunEvent>)
    requires
        n <= usize::MAX,
    ensures
        ({
            let s = run_events(initial(n), evs);
            &&& (s.phase == RunPhase::Draining || s.phase == RunPhase::Finished) ==> {
                &&& s.spawned == n
                &&& forall|i: int| 0 <= i < n ==> settled(#[trigger] s.fates[i])
            }
            &&& forall|i: usize| action_of(s) == RunAction::Abort(i) ==> s.fates[i as int] == TaskFate::Overdue
        }),
{
    crate::supervisor::lemma_initial_well_formed(n);
    lemma_run_events_well_formed(initial(n), evs);
}

/// A trigger whose `start` returns `Ok` before cancellation makes the run
/// send `Stop` on its behalf; its consumer requests shutdown without
/// reporting an error; and a waiting run that then observes the
/// cancellation decides an internal, successful shutdown and cancels every
/// trigger.
pub proof fn lemma_clean_return_stops_run(v: SupervisorView)
    requires
        well_formed(v),
        v.phase == RunPhase::Waiting,
    ensures
        exit_event_of(Ok(()), false) == Some(TriggerEvent::Stop),
        dispatch_of(TriggerEvent::Stop).request_shutdown,
        dispatch_of(TriggerEvent::Stop).report is None,
        next_state(v, RunEvent::CancellationObserved).cause == Some(ShutdownCause::Internal),
        next_state(v, RunEvent::CancellationObserved).outcome == Some(Ok::<(), Error>(())),
        action_of(next_state(v, RunEvent::CancellationObserved)) == RunAction::CancelAll,
{
}

/// A fatal error reaches the error handler exactly once, as fatal, and
/// requests shutdown; a failing `start` is escalated the same way; once the
/// waiting run observes the cancellation it cancels every trigger and then
/// waits for each trigger task in turn, from the first.
pub proof fn lemma_fatal_error_cancels_all(v: SupervisorView, e: Error)
    requires
        well_formed(v),
        v.phase == RunPhase::Waiting,
    ensures
        dispatch_of(TriggerEvent::ErrorFatal(e)) == (Dispatch {
            report: Some(Report { error: e, fatal: true }),
            request_shutdown: true,
        }),
        forall|c: bool| exit_event_of(Err(e), c) == Some(TriggerEvent::ErrorFatal(e)),
        action_of(next_state(v, RunEvent::CancellationObserved)) == RunAction::CancelAll,
        ({
            let w = next_state(next_state(v, RunEvent::CancellationObserved), RunEvent::Cancelled);
            &&& v.triggers > 0 ==> action_of(w) == RunAction::AwaitTrigger(0)
            &&& v.triggers == 0 ==> action_of(w) == RunAction::AwaitConsumers
            &&& forall|i: int| 0 <= i < w.fates.len() ==> w.fates[i] == TaskFate::Running
        }),
{
}

/// The order in which a run goes through its phases.
pub open spec fn phase_rank(p: RunPhase) -> nat {
    match p {
        RunPhase::Spawning => 0,
        RunPhase::Waiting => 1,
        RunPhase::Cancelling => 2,
        RunPhase::Settling => 3,
        RunPhase::Draining => 4,
        RunPhase::Finished => 5,
    }
}

/// How many times the runner set the shared cancellation signal along a
/// sequence of observations.
pub open spec fn cancellations_along(v: SupervisorView, evs: Seq<RunEvent>) -> nat
    decreases evs.len(),
{
    if evs.len() == 0 {
        0
    } else {
        let before = run_events(v, evs.drop_last());
        let prev = cancellations_along(v, evs.drop_last());
        if before.phase == RunPhase::Cancelling && evs.last() is Cancelled {
            prev + 1
        } else {
            prev
        }
    }
}

/// A run never goes back to an earlier phase, and sets the shared
/// cancellation signal exactly once: never before shutdown is decided,
/// once from then on.
pub proof fn lemma_cancellation_set_once(n: nat, evs: Seq<RunEvent>)
    requires
        n <= usize::MAX,
    ensures
        cancellations_along(initial(n), evs) == (if phase_rank(run_events(initial(n), evs).phase) > 2 { 1nat } else { 0nat }),
        forall|ev: RunEvent| phase_rank(#[trigger] next_state(run_events(initial(n), evs), ev).phase) >= phase_rank(run_events(initial(n), evs).phase),
    decreases evs.len(),
{
    if evs.len() > 0 {
        lemma_cancellation_set_once(n, evs.drop_last());
    }
}

/// Reporting through a trigger's context never ends the reporting trigger:
/// a full or closed channel only gives it `ChannelSend` back, whatever the
/// event was.
pub proof fn lemma_failed_delivery_is_channel_send(r: Result<(), Error>, event: TriggerEvent)
    requires
        is_delivery_outcome(r, event),
    ensures
        r is Ok || (r matches Err(e) && e is ChannelSend),
{
}

/// `k` observations that the tasks of the next trigger were spawned.
pub open spec fn spawn_rest(k: nat) -> Seq<RunEvent>
    decreases k,
{
    if k == 0 {
        Seq::empty()
    } else {
        spawn_rest((k - 1) as nat).push(RunEvent::Spawned)
    }
}

/// What the runner observes while settling the trigger tasks in turn:
/// for each trigger, `true` when it exits within the grace period, `false`
/// when the grace period runs out and it is ended by force.
pub open spec fn settle_events(exits: Seq<bool>) -> Seq<RunEvent>
    decreases exits.len(),
{
    if exits.len() == 0 {
        Seq::empty()
    } else {
        settle_events(exits.drop_last()) + if exits.last() {
            seq![RunEvent::TriggerExited]
        } else {
            seq![RunEvent::GraceElapsed, RunEvent::Aborted]
        }
    }
}

proof fn lemma_run_events_append(v: SupervisorView, a: Seq<RunEvent>, b: Seq<RunEvent>)
    ensures
        run_events(v, a + b) == run_events(run_events(v, a), b),
    decreases b.len(),
{
    if b.len() == 0 {
        assert(a + b == a);
    } else {
        lemma_run_events_append(v, a, b.drop_last());
        assert((a + b).drop_last() == a + b.drop_last());
    }
}

proof fn lemma_spawn_rest(v: SupervisorView, k: nat)
    requires
        well_formed(v),
        v.phase == RunPhase::Spawning || v.phase == RunPhase::Waiting,
        v.spawned + k == v.triggers,
    ensures
        ({
            let w = run_events(v, spawn_rest(k));
            &&& w.phase == RunPhase::Waiting
            &&& well_formed(w)
            &&& w.triggers == v.triggers
        }),
    decreases k,
{
    if k > 0 {
        let s = spawn_rest((k - 1) as nat);
        assert(spawn_rest(k).drop_last() == s);
        lemma_run_events_well_formed(v, s);
        lemma_spawn_rest_prefix(v, (k - 1) as nat);
    }
}

proof fn lemma_spawn_rest_prefix(v: SupervisorView, j: nat)
    requires
        well_formed(v),
        v.phase == RunPhase::Spawning || v.phase == RunPhase::Waiting,
        v.spawned + j < v.triggers,
    ensures
        ({
            let w = run_events(v, spawn_rest(j));
            &&& w.phase == RunPhase::Spawning
            &&& w.spawned == v.spawned + j
            &&& w.triggers == v.triggers
        }),
    decreases j,
{
    if j > 0 {
        assert(spawn_rest(j).drop_last() == spawn_rest((j - 1) as nat));
        lemma_spawn_rest_prefix(v, (j - 1) as nat);
    }
}

proof fn lemma_settle_prefix(t: SupervisorView, exits: Seq<bool>, k: int)
    requires
        well_formed(t),
        t.phase == RunPhase::Settling,
        t.current == 0,
        forall|i: int| 0 <= i < t.fates.len() ==> #[trigger] t.fates[i] == TaskFate::Running,
        exits.len() == t.triggers,
        0 <= k <= exits.len(),
    ensures
        ({
            let w = run_events(t, settle_events(exits.subrange(0, k)));
            &&& w.current == k
            &&& w.phase == (if k == exits.len() { RunPhase::Draining } else { RunPhase::Settling })
            &&& w.triggers == t.triggers
            &&& w.cause == t.cause
            &&& w.outcome == t.outcome
            &&& w.fates.len() == t.fates.len()
            &&& forall|i: int| 0 <= i < k ==> #[trigger] w.fates[i] == (if exits[i] { TaskFate::Exited } else { TaskFate::Aborted })
            &&& forall|i: int| k <= i < w.fates.len() ==> #[trigger] w.fates[i] == TaskFate::Running
        }),
    decreases k,
{
    if k == 0 {
        assert(exits.subrange(0, 0).len() == 0);
        assert(settle_events(exits.subrange(0, 0)) == Seq::<RunEvent>::empty());
        assert(run_events(t, Seq::<RunEvent>::empty()) == t);
    } else {
        lemma_settle_prefix(t, exits, k - 1);
        let pre = settle_events(exits.subrange(0, k - 1));
        let u = run_events(t, pre);
        assert(exits.subrange(0, k).drop_last() == exits.subrange(0, k - 1));
        let piece = if exits[k - 1] {
            seq![RunEvent::TriggerExited]
        } else {
            seq![RunEvent::GraceElapsed, RunEvent::Aborted]
        };
        assert(settle_events(exits.subrange(0, k)) == pre + piece);
        lemma_run_events_append(t, pre, piece);
        assert(u.fates.len() == t.triggers);
        assert(u.fates[k - 1] == TaskFate::Running);
        assert(u.phase == RunPhase::Settling);
        let w = run_events(u, piece);
        if exits[k - 1] {
            assert(piece.drop_last() =~= Seq::<RunEvent>::empty());
            assert(run_events(u, piece.drop_last()) == u);
            assert(w == next_state(u, RunEvent::TriggerExited));
            assert(w == advance(u, TaskFate::Exited));
        } else {
            assert(piece.drop_last() =~= seq![RunEvent::GraceElapsed]);
            assert(piece.drop_last().drop_last() =~= Seq::<RunEvent>::empty());
            let m = next_state(u, RunEvent::GraceElapsed);
            assert(run_events(u, piece.drop_last().drop_last()) == u);
            assert(run_events(u, piece.drop_last()) == m);
            assert(m.fates == u.fates.update(k - 1, TaskFate::Overdue));
            assert(w == next_state(m, RunEvent::Aborted));
            assert(w == advance(m, TaskFate::Aborted));
        }
        assert forall|i: int| 0 <= i < k implies #[trigger] w.fates[i] == (if exits[i] { TaskFate::Exited } else { TaskFate::Aborted }) by {
            if i < k - 1 {
                assert(w.fates[i] == u.fates[i]);
            }
        }
        assert forall|i: int| k <= i < w.fates.len() implies #[trigger] w.fates[i] == TaskFate::Running by {
            assert(w.fates[i] == u.fates[i]);
        }
    }
}

/// A stop or a fatal error that arrives before any shutdown was decided
/// ends the whole run. Whatever happened so far, once the runner has
/// spawned the remaining triggers and observes the cancellation signal, it
/// cancels every trigger; then, whichever triggers exit within the grace
/// period (`exits[i]`) and whichever are ended by force, the run finishes
/// with `Ok(())` and every trigger task settled as such.
pub proof fn lemma_internal_shutdown_ends_run(n: nat, evs: Seq<RunEvent>, exits: Seq<bool>)
    requires
        n <= usize::MAX,
        exits.len() == n,
        run_events(initial(n), evs).phase == RunPhase::Spawning
            || run_events(initial(n), evs).phase == RunPhase::Waiting,
    ensures
        ({
            let s = run_events(initial(n), evs);
            let waiting = run_events(s, spawn_rest((n - s.spawned) as nat));
            let cancelling = next_state(waiting, RunEvent::CancellationObserved);
            let settling = next_state(cancelling, RunEvent::Cancelled);
            let drained = run_events(settling, settle_events(exits));
            let done = next_state(drained, RunEvent::ConsumersDrained);
            &&& action_of(waiting) == RunAction::AwaitShutdown
            &&& action_of(cancelling) == RunAction::CancelAll
            &&& cancelling.cause == Some(ShutdownCause::Internal)
            &&& done.phase == RunPhase::Finished
            &&& done.outcome == Some(Ok::<(), Error>(()))
            &&& forall|i: int| 0 <= i < n ==> #[trigger] done.fates[i] == (if exits[i] { TaskFate::Exited } else { TaskFate::Aborted })
        }),
{
    crate::supervisor::lemma_initial_well_formed(n);
    lemma_run_events_well_formed(initial(n), evs);
    let s = run_events(initial(n), evs);
    lemma_spawn_rest(s, (n - s.spawned) as nat);
    let waiting = run_events(s, spawn_rest((n - s.spawned) as nat));
    let cancelling = next_state(waiting, RunEvent::CancellationObserved);
    crate::supervisor::lemma_next_state_well_formed(waiting, RunEvent::CancellationObserved);
    let settling = next_state(cancelling, RunEvent::Cancelled);
    crate::supervisor::lemma_next_state_well_formed(cancelling, RunEvent::Cancelled);
    if n > 0 {
        lemma_settle_prefix(settling, exits, n as int);
        assert(exits.subrange(0, n as int) == exits);
    } else {
        assert(exits.len() == 0);
        assert(settle_events(exits) == Seq::<RunEvent>::empty());
    }
}

/// In a trigger's own loop a failing callback is reported as a recoverable
/// error, which the consumer reports without requesting shutdown; the loop
/// then goes on, unless the channel turned out to be closed. Only
/// cancellation, a closed channel, or a failure of the trigger's source
/// ends the loop.
pub proof fn lemma_recoverable_error_keeps_loop_going(e: Error, outcome: Result<(), SendFailure>)
    ensures
        loop_step_of(LoopEvent::CallbackDone(Err(e))) == LoopAction::Report(TriggerEvent::Error(e)),
        !dispatch_of(TriggerEvent::Error(e)).request_shutdown,
        loop_step_of(LoopEvent::Reported(outcome)) == (if outcome matches Err(SendFailure::Closed(_)) {
            LoopAction::End
        } else {
            LoopAction::Wait
        }),
        loop_step_of(LoopEvent::Cancelled) == LoopAction::End,
        loop_step_of(LoopEvent::Tick) == LoopAction::CallCallback,
        loop_step_of(LoopEvent::CallbackDone(Ok(()))) == LoopAction::Wait,
{
}

/// Nothing is checked when a file system trigger is registered: one with
/// no watched path reports, as it starts, a fatal `NoWatchPaths`, which its
/// consumer hands to the error handler and turns into a shutdown request.
pub proof fn lemma_missing_paths_fail_at_start(watched: nat)
    ensures
        watched == 0 ==> missing_paths_event_of(watched) == Some(TriggerEvent::ErrorFatal(Error::NoWatchPaths())),
        watched == 0 ==> dispatch_of(TriggerEvent::ErrorFatal(Error::NoWatchPaths())) == (Dispatch {
            report: Some(Report { error: Error::NoWatchPaths(), fatal: true }),
            request_shutdown: true,
        }),
        watched > 0 ==> missing_paths_event_of(watched) is None,
{
}

} // verus!
