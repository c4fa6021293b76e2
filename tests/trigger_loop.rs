use automat_core::{
    loop_step, try_report, Error, LoopAction, LoopEvent, SendFailure, TriggerEvent,
};
use tokio::sync::mpsc::channel;

#[test]
fn tick_calls_the_callback() {
    assert!(matches!(loop_step(LoopEvent::Tick), LoopAction::CallCallback));
}

#[test]
fn successful_callback_waits_for_next_tick() {
    assert!(matches!(loop_step(LoopEvent::CallbackDone(Ok(()))), LoopAction::Wait));
}

#[test]
fn failing_callback_is_reported_as_recoverable() {
    let a = loop_step(LoopEvent::CallbackDone(Err(Error::CallbackError("bad".to_string()))));
    assert!(matches!(a, LoopAction::Report(TriggerEvent::Error(Error::CallbackError(ref m))) if m == "bad"));
}

#[test]
fn closed_channel_ends_loop_full_channel_does_not() {
    assert!(matches!(loop_step(LoopEvent::Reported(Ok(()))), LoopAction::Wait));
    assert!(matches!(
        loop_step(LoopEvent::Reported(Err(SendFailure::Full(TriggerEvent::Stop)))),
        LoopAction::Wait
    ));
    assert!(matches!(
        loop_step(LoopEvent::Reported(Err(SendFailure::Closed(TriggerEvent::Stop)))),
        LoopAction::End
    ));
}

#[test]
fn cancellation_ends_loop() {
    assert!(matches!(loop_step(LoopEvent::Cancelled), LoopAction::End));
}

#[test]
fn source_failure_fails_start() {
    let a = loop_step(LoopEvent::SourceFailed(Error::WindowListError("x".to_string())));
    assert!(matches!(a, LoopAction::Fail(Error::WindowListError(_))));
}

#[test]
fn watcher_failures() {
    assert!(matches!(
        loop_step(LoopEvent::WatcherFailed(Error::FileWatcherStopped)),
        LoopAction::ReportAndEnd(TriggerEvent::Error(Error::FileWatcherStopped))
    ));
    assert!(matches!(
        loop_step(LoopEvent::WatchFailed(Error::ChannelSend)),
        LoopAction::Report(TriggerEvent::Error(Error::ChannelSend))
    ));
    assert!(matches!(
        loop_step(LoopEvent::StreamEnded),
        LoopAction::Fail(Error::FileWatcherStopped)
    ));
}

#[test]
fn try_report_hands_back_undelivered_event() {
    let (tx, mut rx) = channel(1);
    assert!(try_report(&tx, TriggerEvent::Stop).is_ok());
    let full = try_report(&tx, TriggerEvent::Error(Error::ChannelSend));
    assert!(matches!(full, Err(SendFailure::Full(TriggerEvent::Error(Error::ChannelSend)))));
    assert!(matches!(rx.try_recv(), Ok(TriggerEvent::Stop)));
    drop(rx);
    let closed = try_report(&tx, TriggerEvent::Stop);
    assert!(matches!(closed, Err(SendFailure::Closed(TriggerEvent::Stop))));
}
