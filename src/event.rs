use vstd::prelude::*;
use crate::error::Error;
use tokio::sync::mpsc::error::TrySendError;
use tokio::sync::mpsc::Sender;
use tokio_util::sync::CancellationToken;

verus! {

/// Declares tokio's bounded channel sender, over which triggers report.
#[verifier::external_type_specification]
#[verifier::external_body]
#[verifier::reject_recursive_types(T)]
pub struct ExSender<T>(Sender<T>);

/// Declares tokio-util's shared one-shot cancellation token.
#[verifier::external_type_specification]
#[verifier::external_body]
pub struct ExCancellationToken(CancellationToken);

/// Relies on tokio's `Sender::clone`: the copy sends into the same channel.
pub assume_specification<T>[ <Sender<T> as Clone>::clone ](s: &Sender<T>) -> Sender<T>;

/// Relies on tokio-util's `CancellationToken::clone`: the copy shares the
/// same cancellation state.
pub assume_specification[ <CancellationToken as Clone>::clone ](t: &CancellationToken) -> CancellationToken;

/// What a trigger reports about its own health.
#[derive(Debug)]
pub enum TriggerEvent {
    /// A recoverable failure: the trigger goes on.
    Error(Error),
    /// An unrecoverable failure: the trigger's loop ends and the run shuts down.
    ErrorFatal(Error),
    /// A voluntary end: the run shuts down, and no error is reported.
    Stop,
}

/// An event that could not be queued, handed back to the sender.
#[derive(Debug)]
pub enum SendFailure {
    /// The channel had no capacity left.
    Full(TriggerEvent),
    /// The receiving side is gone.
    Closed(TriggerEvent),
}

impl SendFailure {
    pub open spec fn event(&self) -> TriggerEvent {
        match self {
            SendFailure::Full(e) => *e,
            SendFailure::Closed(e) => *e,
        }
    }
}

/// Relies on tokio's `Sender::try_send`: it never waits, and when the
/// channel is full or closed it hands the message back unchanged, as
/// `Full` or `Closed`.
#[verifier::external_body]
fn try_send_event(tx: &Sender<TriggerEvent>, event: TriggerEvent) -> (r: Result<(), SendFailure>)
    ensures
        r matches Err(f) ==> f.event() == event,
{
    match tx.try_send(event) {
        Ok(()) => Ok(()),
        Err(TrySendError::Full(e)) => Err(SendFailure::Full(e)),
        Err(TrySendError::Closed(e)) => Err(SendFailure::Closed(e)),
    }
}

/// Queues `event` on `tx` without waiting. When the channel is full or
/// closed the event comes back in the failure.
pub fn try_report(tx: &Sender<TriggerEvent>, event: TriggerEvent) -> (r: Result<(), SendFailure>)
    ensures
        r matches Err(f) ==> f.event() == event,
{
    try_send_event(tx, event)
}

/// The outcome a sender sees of an attempt to queue an event.
pub open spec fn send_outcome_of(r: Result<(), SendFailure>) -> Result<(), Error> {
    match r {
        Ok(()) => Ok(()),
        Err(_) => Err(Error::ChannelSend),
    }
}

/// Maps the result of an attempt to queue an event to what the sender
/// sees: a failed delivery is `ChannelSend`, never anything worse.
pub fn send_outcome(r: Result<(), SendFailure>) -> (out: Result<(), Error>)
    ensures
        out == send_outcome_of(r),
{
    match r {
        Ok(()) => Ok(()),
        Err(_) => Err(Error::ChannelSend),
    }
}

/// Whether `r` is what the sender sees of an attempt to queue `event`:
/// success, or `ChannelSend` after the channel handed `event` back.
pub open spec fn is_delivery_outcome(r: Result<(), Error>, event: TriggerEvent) -> bool {
    exists|attempt: Result<(), SendFailure>|
        (attempt matches Err(f) ==> f.event() == event) && r == send_outcome_of(attempt)
}

/// A value handed to a trigger's callback, with the means to report on the
/// trigger's channel.
#[derive(Debug)]
pub struct TriggerContext<T> {
    pub data: T,
    pub tx: Sender<TriggerEvent>,
}

impl<T> TriggerContext<T> {
    pub fn new(data: T, tx: Sender<TriggerEvent>) -> (r: Self)
        ensures
            r.data == data,
            r.tx == tx,
    {
        TriggerContext { data, tx }
    }

    /// Reports a recoverable error without waiting; fails with
    /// `ChannelSend` when the channel is full or closed.
    pub fn error(&self, error: Error) -> (r: Result<(), Error>)
        ensures
            is_delivery_outcome(r, TriggerEvent::Error(error)),
    {
        let attempt = try_send_event(&self.tx, TriggerEvent::Error(error));
        proof {
            assert(attempt matches Err(f) ==> f.event() == TriggerEvent::Error(error));
        }
        send_outcome(attempt)
    }

    /// Reports a fatal error without waiting; fails with `ChannelSend` when
    /// the channel is full or closed.
    pub fn error_fatal(&self, error: Error) -> (r: Result<(), Error>)
        ensures
            is_delivery_outcome(r, TriggerEvent::ErrorFatal(error)),
    {
        let attempt = try_send_event(&self.tx, TriggerEvent::ErrorFatal(error));
        proof {
            assert(attempt matches Err(f) ==> f.event() == TriggerEvent::ErrorFatal(error));
        }
        send_outcome(attempt)
    }

    /// Asks the run to stop without waiting; fails with `ChannelSend` when
    /// the channel is full or closed.
    pub fn stop(&self) -> (r: Result<(), Error>)
        ensures
            is_delivery_outcome(r, TriggerEvent::Stop),
    {
        let attempt = try_send_event(&self.tx, TriggerEvent::Stop);
        proof {
            assert(attempt matches Err(f) ==> f.event() == TriggerEvent::Stop);
        }
        send_outcome(attempt)
    }
}

/// Handed to every running trigger: the sender of its event channel and the
/// run's shared cancellation signal. Triggers should stop promptly once
/// `shutdown` is cancelled.
#[derive(Clone)]
pub struct TriggerRuntime {
    pub tx: Sender<TriggerEvent>,
    pub shutdown: CancellationToken,
}

/// An error to hand to the error handler (or to print when there is none).
#[derive(Debug)]
pub struct Report {
    pub error: Error,
    pub fatal: bool,
}

/// What a consumer does with one event of its trigger.
#[derive(Debug)]
pub struct Dispatch {
    pub report: Option<Report>,
    pub request_shutdown: bool,
}

/// How a consumer treats each event: errors are reported, fatal ones also
/// request shutdown, and `Stop` requests shutdown without a report.
pub open spec fn dispatch_of(event: TriggerEvent) -> Dispatch {
    match event {
        TriggerEvent::Error(e) => Dispatch { report: Some(Report { error: e, fatal: false }), request_shutdown: false },
        TriggerEvent::ErrorFatal(e) => Dispatch { report: Some(Report { error: e, fatal: true }), request_shutdown: true },
        TriggerEvent::Stop => Dispatch { report: None, request_shutdown: true },
    }
}

/// Decides what the consumer of a trigger's channel does with an event.
pub fn dispatch(event: TriggerEvent) -> (r: Dispatch)
    ensures
        r == dispatch_of(event),
{
    match event {
        TriggerEvent::Error(e) => Dispatch { report: Some(Report { error: e, fatal: false }), request_shutdown: false },
        TriggerEvent::ErrorFatal(e) => Dispatch { report: Some(Report { error: e, fatal: true }), request_shutdown: true },
        TriggerEvent::Stop => Dispatch { report: None, request_shutdown: true },
    }
}

/// The event the runner sends on a trigger's behalf once its `start` has
/// returned: a failure is fatal, and a clean return before cancellation is
/// a request to stop.
pub open spec fn exit_event_of(result: Result<(), Error>, cancelled: bool) -> Option<TriggerEvent> {
    match result {
        Err(e) => Some(TriggerEvent::ErrorFatal(e)),
        Ok(()) => if cancelled { None } else { Some(TriggerEvent::Stop) },
    }
}

/// Decides what the runner reports for a trigger whose `start` returned
/// `result`, given whether cancellation had been requested by then.
pub fn exit_event(result: Result<(), Error>, cancelled: bool) -> (r: Option<TriggerEvent>)
    ensures
        r == exit_event_of(result, cancelled),
{
    match result {
        Err(e) => Some(TriggerEvent::ErrorFatal(e)),
        Ok(()) => if cancelled { None } else { Some(TriggerEvent::Stop) },
    }
}

} // verus!
