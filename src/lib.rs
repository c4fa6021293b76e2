//! Core of a trigger-orchestration engine.
//!
//! Triggers report their health through a small event protocol
//! (`TriggerEvent`, `TriggerContext`); a consumer decides what each event
//! means (`dispatch`); a registry collects the triggers (`Automat`); and a
//! supervisor state machine (`Supervisor`) decides how a run starts, races
//! its shutdown conditions, waits for each trigger for a bounded grace
//! period and settles. The asynchronous plumbing that carries these
//! decisions out, and the platform backends, live outside this crate's
//! verified part.

mod actions;
mod automat;
mod error;
mod event;
mod input;
mod laws;
mod process;
mod supervisor;
mod text;
mod trigger_loop;
mod triggers;
mod window;

pub use actions::{CloseWindow, MaximizeWindow, MinimizeWindow, OpenInBrowser, SetWindowTitle};
pub use automat::{Automat, FileSystemBuilder};
pub use error::{Error, Result};
pub use event::{
    dispatch, exit_event, send_outcome, try_report, Dispatch, Report, SendFailure, TriggerContext,
    TriggerEvent, TriggerRuntime,
};
pub use input::{KeyboardAction, KeyboardActionKind, MouseAction, MouseActionKind};
pub use laws::{
    lemma_cancellation_set_once, lemma_clean_return_stops_run, lemma_each_trigger_spawned_once,
    lemma_failed_delivery_is_channel_send, lemma_fatal_error_cancels_all,
    lemma_internal_shutdown_ends_run, lemma_missing_paths_fail_at_start,
    lemma_recoverable_error_keeps_loop_going, lemma_shutdown_settles_every_trigger,
};
pub use process::{ProcessEvent, ProcessInfo, ProcessTrigger};
pub use supervisor::{
    RunAction, RunEvent, RunPhase, ShutdownCause, Supervisor, TaskFate, EVENT_CHANNEL_CAPACITY,
    SHUTDOWN_GRACE_SECS,
};
pub use trigger_loop::{loop_step, LoopAction, LoopEvent};
pub use triggers::{
    ClipboardEvent, ClipboardTrigger, FileSystemTrigger, IntervalTrigger, WindowTrigger,
    CLIPBOARD_POLL_MILLIS, PROCESS_POLL_MILLIS, WINDOW_POLL_MILLIS,
};
pub use window::{Window, WindowIdentifier, WindowState};
