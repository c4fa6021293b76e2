use automat_core::{
    dispatch, exit_event, send_outcome, Error, SendFailure, TriggerContext, TriggerEvent,
    TriggerRuntime, EVENT_CHANNEL_CAPACITY,
};
use tokio::sync::mpsc::channel;
use tokio_util::sync::CancellationToken;

#[test]
fn recoverable_error_is_reported_without_shutdown() {
    let d = dispatch(TriggerEvent::Error(Error::WindowTitleError("no title".to_string())));
    let report = d.report.unwrap();
    assert!(!report.fatal);
    assert!(matches!(report.error, Error::WindowTitleError(ref m) if m == "no title"));
    assert!(!d.request_shutdown);
}

#[test]
fn fatal_error_is_reported_and_requests_shutdown() {
    let d = dispatch(TriggerEvent::ErrorFatal(Error::FileWatcherStopped));
    let report = d.report.unwrap();
    assert!(report.fatal);
    assert!(matches!(report.error, Error::FileWatcherStopped));
    assert!(d.request_shutdown);
}

#[test]
fn stop_requests_shutdown_without_report() {
    let d = dispatch(TriggerEvent::Stop);
    assert!(d.report.is_none());
    assert!(d.request_shutdown);
}

#[test]
fn clean_return_before_cancellation_is_a_stop() {
    assert!(matches!(exit_event(Ok(()), false), Some(TriggerEvent::Stop)));
    assert!(exit_event(Ok(()), true).is_none());
}

#[test]
fn failed_start_is_escalated_to_fatal() {
    let e = exit_event(Err(Error::CallbackError("boom".to_string())), false);
    assert!(matches!(e, Some(TriggerEvent::ErrorFatal(Error::CallbackError(ref m))) if m == "boom"));
    let e = exit_event(Err(Error::FileWatcherStopped), true);
    assert!(matches!(e, Some(TriggerEvent::ErrorFatal(Error::FileWatcherStopped))));
}

#[test]
fn send_outcome_maps_every_failure_to_channel_send() {
    assert!(send_outcome(Ok(())).is_ok());
    assert!(matches!(send_outcome(Err(SendFailure::Full(TriggerEvent::Stop))), Err(Error::ChannelSend)));
    assert!(matches!(send_outcome(Err(SendFailure::Closed(TriggerEvent::Stop))), Err(Error::ChannelSend)));
}

#[test]
fn context_sends_each_kind_of_event() {
    let (tx, mut rx) = channel(EVENT_CHANNEL_CAPACITY);
    let ctx = TriggerContext::new(7u32, tx);
    assert_eq!(ctx.data, 7);
    assert!(ctx.error(Error::WindowListError("a".to_string())).is_ok());
    assert!(ctx.error_fatal(Error::NoWatchPaths()).is_ok());
    assert!(ctx.stop().is_ok());
    assert!(matches!(rx.try_recv(), Ok(TriggerEvent::Error(Error::WindowListError(_)))));
    assert!(matches!(rx.try_recv(), Ok(TriggerEvent::ErrorFatal(Error::NoWatchPaths()))));
    assert!(matches!(rx.try_recv(), Ok(TriggerEvent::Stop)));
    assert!(rx.try_recv().is_err());
}

#[test]
fn full_channel_fails_without_blocking() {
    let (tx, mut rx) = channel(1);
    let ctx = TriggerContext::new((), tx);
    assert!(ctx.stop().is_ok());
    assert!(matches!(ctx.stop(), Err(Error::ChannelSend)));
    assert!(matches!(ctx.error(Error::FileWatcherStopped), Err(Error::ChannelSend)));
    assert!(matches!(ctx.error_fatal(Error::FileWatcherStopped), Err(Error::ChannelSend)));
    assert!(matches!(rx.try_recv(), Ok(TriggerEvent::Stop)));
    assert!(ctx.stop().is_ok());
}

#[test]
fn closed_channel_fails_without_blocking() {
    let (tx, rx) = channel(4);
    drop(rx);
    let ctx = TriggerContext::new((), tx);
    assert!(matches!(ctx.stop(), Err(Error::ChannelSend)));
    assert!(matches!(ctx.error(Error::ChannelSend), Err(Error::ChannelSend)));
}

#[test]
fn events_of_one_trigger_arrive_in_send_order() {
    let (tx_a, mut rx_a) = channel(EVENT_CHANNEL_CAPACITY);
    let (tx_b, mut rx_b) = channel(EVENT_CHANNEL_CAPACITY);
    let a = TriggerContext::new((), tx_a);
    let b = TriggerContext::new((), tx_b);
    for i in 0..20 {
        assert!(a.error(Error::CallbackError(format!("a{}", i))).is_ok());
        assert!(b.error(Error::CallbackError(format!("b{}", i))).is_ok());
    }
    for i in 0..20 {
        match rx_a.try_recv() {
            Ok(TriggerEvent::Error(Error::CallbackError(m))) => assert_eq!(m, format!("a{}", i)),
            _ => panic!("event out of order"),
        }
    }
    for i in 0..20 {
        match rx_b.try_recv() {
            Ok(TriggerEvent::Error(Error::CallbackError(m))) => assert_eq!(m, format!("b{}", i)),
            _ => panic!("event out of order"),
        }
    }
}

#[test]
fn runtime_clones_share_channel_and_signal() {
    let (tx, mut rx) = channel(EVENT_CHANNEL_CAPACITY);
    let rt = TriggerRuntime { tx, shutdown: CancellationToken::new() };
    let copy = rt.clone();
    assert!(copy.tx.try_send(TriggerEvent::Stop).is_ok());
    assert!(matches!(rx.try_recv(), Ok(TriggerEvent::Stop)));
    copy.shutdown.cancel();
    assert!(rt.shutdown.is_cancelled());
}

#[test]
fn io_error_converts_into_library_error() {
    let e: Error = std::io::Error::new(std::io::ErrorKind::Other, "x").into();
    assert!(matches!(e, Error::IoError(_)));
}
