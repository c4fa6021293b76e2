use vstd::prelude::*;
use crate::error::Error;
use crate::event::{SendFailure, TriggerEvent};

verus! {

/// What a trigger's own loop observed.
#[derive(Debug)]
pub enum LoopEvent {
    /// A unit of work is due: a timer tick, a poll, an incoming change.
    Tick,
    /// The user callback returned.
    CallbackDone(Result<(), Error>),
    /// The outcome of queueing the last report, without waiting.
    Reported(Result<(), SendFailure>),
    /// The run's cancellation signal was found set.
    Cancelled,
    /// Reading the trigger's source failed (the clipboard could not be read).
    SourceFailed(Error),
    /// The file system watcher could not be created.
    WatcherFailed(Error),
    /// One watched path could not be registered with the watcher.
    WatchFailed(Error),
    /// The stream of file system changes ended.
    StreamEnded,
}

/// What the trigger's loop is to do next.
#[derive(Debug)]
pub enum LoopAction {
    /// Call the user callback with the new data.
    CallCallback,
    /// Queue this event, without waiting, and hand back the outcome.
    Report(TriggerEvent),
    /// Queue this event, without waiting, then end the loop whatever came of it.
    ReportAndEnd(TriggerEvent),
    /// Wait for the next unit of work or for cancellation.
    Wait,
    /// End the loop: `start` returns `Ok`.
    End,
    /// End the loop: `start` returns this error, which the run treats as fatal.
    Fail(Error),
}

/// The rule every trigger loop follows: work is done on each tick; a
/// failing callback is reported as a recoverable `Error` and the loop goes
/// on; a report that finds the channel full is dropped and the loop goes
/// on, while a closed channel ends the loop; cancellation ends the loop; a
/// watcher that cannot be created is reported and ends the loop; a path that
/// cannot be watched is reported; a source that cannot be read, or a change
/// stream that ends, fails `start`.
pub open spec fn loop_step_of(ev: LoopEvent) -> LoopAction {
    match ev {
        LoopEvent::Tick => LoopAction::CallCallback,
        LoopEvent::CallbackDone(Ok(())) => LoopAction::Wait,
        LoopEvent::CallbackDone(Err(e)) => LoopAction::Report(TriggerEvent::Error(e)),
        LoopEvent::Reported(Err(SendFailure::Closed(_))) => LoopAction::End,
        LoopEvent::Reported(_) => LoopAction::Wait,
        LoopEvent::Cancelled => LoopAction::End,
        LoopEvent::SourceFailed(e) => LoopAction::Fail(e),
        LoopEvent::WatcherFailed(e) => LoopAction::ReportAndEnd(TriggerEvent::Error(e)),
        LoopEvent::WatchFailed(e) => LoopAction::Report(TriggerEvent::Error(e)),
        LoopEvent::StreamEnded => LoopAction::Fail(Error::FileWatcherStopped),
    }
}

/// Decides the next action of a trigger's loop.
pub fn loop_step(ev: LoopEvent) -> (r: LoopAction)
    ensures
        r == loop_step_of(ev),
{
    match ev {
        LoopEvent::Tick => LoopAction::CallCallback,
        LoopEvent::CallbackDone(Ok(())) => LoopAction::Wait,
        LoopEvent::CallbackDone(Err(e)) => LoopAction::Report(TriggerEvent::Error(e)),
        LoopEvent::Reported(Err(SendFailure::Closed(_))) => LoopAction::End,
        LoopEvent::Reported(_) => LoopAction::Wait,
        LoopEvent::Cancelled => LoopAction::End,
        LoopEvent::SourceFailed(e) => LoopAction::Fail(e),
        LoopEvent::WatcherFailed(e) => LoopAction::ReportAndEnd(TriggerEvent::Error(e)),
        LoopEvent::WatchFailed(e) => LoopAction::Report(TriggerEvent::Error(e)),
        LoopEvent::StreamEnded => LoopAction::Fail(Error::FileWatcherStopped),
    }
}

} // verus!
