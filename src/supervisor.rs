use vstd::prelude::*;
use crate::error::Error;

verus! {

/// Seconds the runner waits for each trigger task to exit on its own once
/// shutdown has been decided, before ending it by force.
pub const SHUTDOWN_GRACE_SECS: u64 = 2;

/// Capacity of each trigger's event channel.
pub const EVENT_CHANNEL_CAPACITY: usize = 100;

/// Where a run stands.
#[derive(Debug, Clone, Copy, PartialEq, Eq, Structural)]
pub enum RunPhase {
    /// Starting the tasks of each trigger, one trigger after the other.
    Spawning,
    /// Every trigger runs; waiting for the external signal or for internal cancellation.
    Waiting,
    /// Shutdown is decided; the shared cancellation signal is to be set.
    Cancelling,
    /// Waiting for the trigger tasks, one after the other, each up to the grace period.
    Settling,
    /// Every trigger task has ended; waiting for the consumers to drain their channels.
    Draining,
    /// The run is over.
    Finished,
}

/// What became of one trigger task.
#[derive(Debug, Clone, Copy, PartialEq, Eq, Structural)]
pub enum TaskFate {
    Running,
    /// Ended on its own.
    Exited,
    /// Did not end within the grace period; to be ended by force.
    Overdue,
    /// Ended by force.
    Aborted,
}

/// Which of the two raced conditions decided the shutdown.
#[derive(Debug, Clone, Copy, PartialEq, Eq, Structural)]
pub enum ShutdownCause {
    /// The external shutdown signal.
    External,
    /// The shared cancellation signal, set by a consumer on `Stop` or a fatal error.
    Internal,
}

/// What the runner observed after carrying out the last action.
#[derive(Debug)]
pub enum RunEvent {
    /// The trigger task and the consumer task of the next trigger were spawned.
    Spawned,
    /// The external shutdown signal came, or could not be observed.
    ShutdownSignal(Result<(), Error>),
    /// The shared cancellation signal was found set.
    CancellationObserved,
    /// The runner set the shared cancellation signal.
    Cancelled,
    /// The awaited trigger task ended within the grace period.
    TriggerExited,
    /// The grace period ran out before the awaited trigger task ended.
    GraceElapsed,
    /// The overdue trigger task was ended by force.
    Aborted,
    /// Every consumer task has ended.
    ConsumersDrained,
}

/// What the runner is to do next.
#[derive(Debug, Clone, Copy, PartialEq, Eq, Structural)]
pub enum RunAction {
    /// Spawn the trigger task and the consumer task of trigger `i`.
    Spawn(usize),
    /// Race the external shutdown signal against the shared cancellation signal.
    AwaitShutdown,
    /// Set the shared cancellation signal.
    CancelAll,
    /// Wait up to the grace period for trigger task `i`.
    AwaitTrigger(usize),
    /// End trigger task `i` by force and wait for it.
    Abort(usize),
    /// Wait for every consumer task.
    AwaitConsumers,
    /// Return the outcome of the run.
    Finish,
}

/// The abstract state of a run.
pub struct SupervisorView {
    pub triggers: nat,
    pub spawned: nat,
    pub phase: RunPhase,
    pub current: nat,
    pub fates: Seq<TaskFate>,
    pub cause: Option<ShutdownCause>,
    pub outcome: Option<Result<(), Error>>,
}

/// The decisions of a run over a fixed set of triggers: which tasks to
/// spawn, how the shutdown race is settled, how long each trigger task is
/// waited for and when it is ended by force.
pub struct Supervisor {
    pub triggers: usize,
    pub spawned: usize,
    pub phase: RunPhase,
    pub current: usize,
    pub fates: Vec<TaskFate>,
    pub cause: Option<ShutdownCause>,
    pub outcome: Option<Result<(), Error>>,
}

impl View for Supervisor {
    type V = SupervisorView;

    open spec fn view(&self) -> SupervisorView {
        SupervisorView {
            triggers: self.triggers as nat,
            spawned: self.spawned as nat,
            phase: self.phase,
            current: self.current as nat,
            fates: self.fates@,
            cause: self.cause,
            outcome: self.outcome,
        }
    }
}

pub open spec fn settled(f: TaskFate) -> bool {
    f == TaskFate::Exited || f == TaskFate::Aborted
}

/// The state in which a run over `n` triggers begins.
pub open spec fn initial(n: nat) -> SupervisorView {
    SupervisorView {
        triggers: n,
        spawned: 0,
        phase: if n == 0 { RunPhase::Waiting } else { RunPhase::Spawning },
        current: 0,
        fates: Seq::empty(),
        cause: None,
        outcome: None,
    }
}

/// The state after the runner has settled trigger `current` one way or the other.
pub open spec fn advance(v: SupervisorView, fate: TaskFate) -> SupervisorView {
    let next = v.current + 1;
    SupervisorView {
        fates: v.fates.update(v.current as int, fate),
        current: next,
        phase: if next == v.triggers { RunPhase::Draining } else { RunPhase::Settling },
        ..v
    }
}

/// How one observation changes the state of a run; an observation that
/// does not fit the current phase changes nothing.
pub open spec fn next_state(v: SupervisorView, ev: RunEvent) -> SupervisorView {
    match (v.phase, ev) {
        (RunPhase::Spawning, RunEvent::Spawned) => {
            let spawned = v.spawned + 1;
            SupervisorView {
                spawned: spawned,
                fates: v.fates.push(TaskFate::Running),
                phase: if spawned == v.triggers { RunPhase::Waiting } else { RunPhase::Spawning },
                ..v
            }
        },
        (RunPhase::Waiting, RunEvent::ShutdownSignal(r)) => SupervisorView {
            phase: RunPhase::Cancelling,
            cause: Some(ShutdownCause::External),
            outcome: Some(r),
            ..v
        },
        (RunPhase::Waiting, RunEvent::CancellationObserved) => SupervisorView {
            phase: RunPhase::Cancelling,
            cause: Some(ShutdownCause::Internal),
            outcome: Some(Ok(())),
            ..v
        },
        (RunPhase::Cancelling, RunEvent::Cancelled) => SupervisorView {
            phase: if v.triggers == 0 { RunPhase::Draining } else { RunPhase::Settling },
            current: 0,
            ..v
        },
        (RunPhase::Settling, RunEvent::TriggerExited) =>
            if v.current < v.fates.len() && v.fates[v.current as int] == TaskFate::Running {
                advance(v, TaskFate::Exited)
            } else {
                v
            },
        (RunPhase::Settling, RunEvent::GraceElapsed) =>
            if v.current < v.fates.len() && v.fates[v.current as int] == TaskFate::Running {
                SupervisorView { fates: v.fates.update(v.current as int, TaskFate::Overdue), ..v }
            } else {
                v
            },
        (RunPhase::Settling, RunEvent::Aborted) =>
            if v.current < v.fates.len() && v.fates[v.current as int] == TaskFate::Overdue {
                advance(v, TaskFate::Aborted)
            } else {
                v
            },
        (RunPhase::Draining, RunEvent::ConsumersDrained) => SupervisorView { phase: RunPhase::Finished, ..v },
        _ => v,
    }
}

/// What the runner is to do in a given state.
pub open spec fn action_of(v: SupervisorView) -> RunAction {
    match v.phase {
        RunPhase::Spawning => RunAction::Spawn(v.spawned as usize),
        RunPhase::Waiting => RunAction::AwaitShutdown,
        RunPhase::Cancelling => RunAction::CancelAll,
        RunPhase::Settling =>
            if v.current < v.fates.len() && v.fates[v.current as int] == TaskFate::Overdue {
                RunAction::Abort(v.current as usize)
            } else {
                RunAction::AwaitTrigger(v.current as usize)
            },
        RunPhase::Draining => RunAction::AwaitConsumers,
        RunPhase::Finished => RunAction::Finish,
    }
}

/// The invariant of a run.
pub open spec fn well_formed(v: SupervisorView) -> bool {
    &&& v.spawned <= v.triggers
    &&& v.fates.len() == v.spawned
    &&& v.triggers <= usize::MAX
    &&& (v.phase == RunPhase::Spawning <==> v.spawned < v.triggers)
    &&& (v.phase == RunPhase::Spawning || v.phase == RunPhase::Waiting) ==> {
        &&& v.cause is None
        &&& v.outcome is None
    }
    &&& (v.phase != RunPhase::Spawning && v.phase != RunPhase::Waiting) ==> {
        &&& v.cause is Some
        &&& v.outcome is Some
        &&& v.cause == Some(ShutdownCause::Internal) ==> v.outcome == Some(Ok::<(), Error>(()))
    }
    &&& (v.phase == RunPhase::Spawning || v.phase == RunPhase::Waiting || v.phase == RunPhase::Cancelling) ==>
        forall|i: int| 0 <= i < v.fates.len() ==> v.fates[i] == TaskFate::Running
    &&& v.phase == RunPhase::Settling ==> {
        &&& v.current < v.triggers
        &&& forall|i: int| 0 <= i < v.current ==> settled(#[trigger] v.fates[i])
        &&& forall|i: int| v.current < i < v.fates.len() ==> #[trigger] v.fates[i] == TaskFate::Running
        &&& (v.fates[v.current as int] == TaskFate::Running || v.fates[v.current as int] == TaskFate::Overdue)
    }
    &&& (v.phase == RunPhase::Draining || v.phase == RunPhase::Finished) ==>
        forall|i: int| 0 <= i < v.fates.len() ==> settled(#[trigger] v.fates[i])
}

pub(crate) proof fn lemma_initial_well_formed(n: nat)
    requires
        n <= usize::MAX,
    ensures
        well_formed(initial(n)),
{
}

pub(crate) proof fn lemma_next_state_well_formed(v: SupervisorView, ev: RunEvent)
    requires
        well_formed(v),
    ensures
        well_formed(next_state(v, ev)),
{
    let w = next_state(v, ev);
    match (v.phase, ev) {
        (RunPhase::Settling, RunEvent::TriggerExited) => {
            if v.fates[v.current as int] == TaskFate::Running {
                assert forall|i: int| 0 <= i < w.current implies settled(#[trigger] w.fates[i]) by {
                    if i < v.current {
                        assert(w.fates[i] == v.fates[i]);
                    }
                }
            }
        },
        (RunPhase::Settling, RunEvent::Aborted) => {
            if v.fates[v.current as int] == TaskFate::Overdue {
                assert forall|i: int| 0 <= i < w.current implies settled(#[trigger] w.fates[i]) by {
                    if i < v.current {
                        assert(w.fates[i] == v.fates[i]);
                    }
                }
            }
        },
        _ => {},
    }
}

impl Supervisor {
    /// A run over `triggers` triggers, before anything was spawned.
    pub fn new(triggers: usize) -> (r: Self)
        ensures
            r@ == initial(triggers as nat),
            well_formed(r@),
    {
        proof {
            lemma_initial_well_formed(triggers as nat);
        }
        Supervisor {
            triggers,
            spawned: 0,
            phase: if triggers == 0 { RunPhase::Waiting } else { RunPhase::Spawning },
            current: 0,
            fates: Vec::new(),
            cause: None,
            outcome: None,
        }
    }

    /// What the runner is to do now.
    pub fn action(&self) -> (r: RunAction)
        requires
            well_formed(self@),
        ensures
            r == action_of(self@),
    {
        match self.phase {
            RunPhase::Spawning => RunAction::Spawn(self.spawned),
            RunPhase::Waiting => RunAction::AwaitShutdown,
            RunPhase::Cancelling => RunAction::CancelAll,
            RunPhase::Settling => {
                if self.fates[self.current] == TaskFate::Overdue {
                    RunAction::Abort(self.current)
                } else {
                    RunAction::AwaitTrigger(self.current)
                }
            },
            RunPhase::Draining => RunAction::AwaitConsumers,
            RunPhase::Finished => RunAction::Finish,
        }
    }

    fn settle_current(&mut self, fate: TaskFate)
        requires
            well_formed(old(self)@),
            old(self).phase == RunPhase::Settling,
        ensures
            final(self)@ == advance(old(self)@, fate),
    {
        let i = self.current;
        self.fates.set(i, fate);
        self.current = i + 1;
        if self.current == self.triggers {
            self.phase = RunPhase::Draining;
        }
        proof {
            assert(self.fates@ == old(self)@.fates.update(i as int, fate));
        }
    }

    /// Takes in what the runner observed after the last action.
    pub fn step(&mut self, ev: RunEvent)
        requires
            well_formed(old(self)@),
        ensures
            final(self)@ == next_state(old(self)@, ev),
            well_formed(final(self)@),
    {
        proof {
            lemma_next_state_well_formed(self@, ev);
        }
        let ghost v = self@;
        match ev {
            RunEvent::Spawned => {
                if self.phase == RunPhase::Spawning {
                    self.spawned = self.spawned + 1;
                    self.fates.push(TaskFate::Running);
                    if self.spawned == self.triggers {
                        self.phase = RunPhase::Waiting;
                    }
                }
            },
            RunEvent::ShutdownSignal(r) => {
                if self.phase == RunPhase::Waiting {
                    self.phase = RunPhase::Cancelling;
                    self.cause = Some(ShutdownCause::External);
                    self.outcome = Some(r);
                }
            },
            RunEvent::CancellationObserved => {
                if self.phase == RunPhase::Waiting {
                    self.phase = RunPhase::Cancelling;
                    self.cause = Some(ShutdownCause::Internal);
                    self.outcome = Some(Ok(()));
                }
            },
            RunEvent::Cancelled => {
                if self.phase == RunPhase::Cancelling {
                    self.phase = if self.triggers == 0 { RunPhase::Draining } else { RunPhase::Settling };
                    self.current = 0;
                }
            },
            RunEvent::TriggerExited => {
                if self.phase == RunPhase::Settling && self.fates[self.current] == TaskFate::Running {
                    self.settle_current(TaskFate::Exited);
                }
            },
            RunEvent::GraceElapsed => {
                if self.phase == RunPhase::Settling && self.fates[self.current] == TaskFate::Running {
                    let i = self.current;
                    self.fates.set(i, TaskFate::Overdue);
                }
            },
            RunEvent::Aborted => {
                if self.phase == RunPhase::Settling && self.fates[self.current] == TaskFate::Overdue {
                    self.settle_current(TaskFate::Aborted);
                }
            },
            RunEvent::ConsumersDrained => {
                if self.phase == RunPhase::Draining {
                    self.phase = RunPhase::Finished;
                }
            },
        }
    }

    /// The outcome of the run: what the external signal gave when it decided
    /// the shutdown, and success when internal cancellation did (or when no
    /// shutdown has been decided).
    pub fn outcome(self) -> (r: Result<(), Error>)
        ensures
            self@.outcome matches Some(o) ==> r == o,
            self@.outcome is None ==> r is Ok,
    {
        match self.outcome {
            Some(o) => o,
            None => Ok(()),
        }
    }
}

} // verus!
