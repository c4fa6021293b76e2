use vstd::prelude::*;
use crate::error::Error;
use crate::event::TriggerEvent;
use crate::window::Window;
use std::path::PathBuf;
use std::time::Duration;

verus! {

/// Declares std's owned path type, in which watched paths are kept.
#[verifier::external_type_specification]
#[verifier::external_body]
pub struct ExPathBuf(PathBuf);

/// Declares notify's watcher configuration, which is carried unchanged.
#[verifier::external_type_specification]
#[verifier::external_body]
pub struct ExWatchConfig(notify::Config);

/// The duration `Duration::from_millis` builds from a count of milliseconds.
pub uninterp spec fn duration_from_millis(millis: u64) -> Duration;

/// Relies on `Duration::from_millis`, which builds a duration from a count
/// of milliseconds alone and never fails.
pub assume_specification[ Duration::from_millis ](millis: u64) -> (r: Duration)
    ensures
        r == duration_from_millis(millis),
;

/// Milliseconds between two polls of the process table, unless configured.
pub const PROCESS_POLL_MILLIS: u64 = 500;

/// Milliseconds between two reads of the clipboard, unless configured.
pub const CLIPBOARD_POLL_MILLIS: u64 = 250;

/// Milliseconds between two checks of the focused window.
pub const WINDOW_POLL_MILLIS: u64 = 500;

/// A trigger that runs its callback at a fixed period.
pub struct IntervalTrigger<C> {
    pub interval: Duration,
    pub callback: C,
}

impl<C> IntervalTrigger<C> {
    pub fn new(interval: Duration, callback: C) -> (r: Self)
        ensures
            r.interval == interval,
            r.callback == callback,
    {
        IntervalTrigger { interval, callback }
    }

    pub fn interval(&self) -> (r: Duration)
        ensures
            r == self.interval,
    {
        self.interval
    }
}

/// A trigger that runs its callback whenever another window gets the focus.
pub struct WindowTrigger<C> {
    pub last_window: Option<Window>,
    pub callback: C,
}

impl<C> WindowTrigger<C> {
    pub fn new(callback: C) -> (r: Self)
        ensures
            r.last_window is None,
            r.callback == callback,
    {
        WindowTrigger { last_window: None, callback }
    }

    /// Takes in the window found focused at a tick. Returns the window to
    /// report when it differs from the last one reported, and remembers it.
    pub fn observe(&mut self, focused: Option<Window>) -> (r: Option<Window>)
        ensures
            final(self).callback == old(self).callback,
            match focused {
                Some(w) => if old(self).last_window == Some(w) {
                    r is None && final(self).last_window == old(self).last_window
                } else {
                    r == Some(w) && final(self).last_window == Some(w)
                },
                None => r is None && final(self).last_window == old(self).last_window,
            },
    {
        match focused {
            Some(w) => {
                let changed = match self.last_window {
                    Some(last) => last != w,
                    None => true,
                };
                if changed {
                    self.last_window = Some(w);
                    Some(w)
                } else {
                    None
                }
            },
            None => None,
        }
    }
}

/// A new text found on the clipboard.
#[derive(Debug, Clone)]
pub struct ClipboardEvent(pub String);

impl ClipboardEvent {
    pub fn new(content: String) -> (r: Self)
        ensures
            r.0@ == content@,
    {
        ClipboardEvent(content)
    }

    pub fn content(&self) -> (r: &str)
        ensures
            r@ == self.0@,
    {
        self.0.as_str()
    }
}

/// A trigger that runs its callback whenever the clipboard's text changes.
pub struct ClipboardTrigger<C> {
    pub last_content: String,
    pub poll_interval: Duration,
    pub callback: C,
}

impl<C> ClipboardTrigger<C> {
    /// Polls every `CLIPBOARD_POLL_MILLIS` milliseconds.
    pub fn new(callback: C) -> (r: Self)
        ensures
            r.last_content@ == Seq::<char>::empty(),
            r.poll_interval == duration_from_millis(CLIPBOARD_POLL_MILLIS),
            r.callback == callback,
    {
        Self::with_interval(callback, Duration::from_millis(CLIPBOARD_POLL_MILLIS))
    }

    pub fn with_interval(callback: C, poll_interval: Duration) -> (r: Self)
        ensures
            r.last_content@ == Seq::<char>::empty(),
            r.poll_interval == poll_interval,
            r.callback == callback,
    {
        ClipboardTrigger { last_content: String::new(), poll_interval, callback }
    }

    /// Takes in the text read when the trigger starts, against which the
    /// first change is detected.
    pub fn prime(&mut self, content: String)
        ensures
            final(self).last_content@ == content@,
            final(self).poll_interval == old(self).poll_interval,
            final(self).callback == old(self).callback,
    {
        self.last_content = content;
    }

    /// Takes in the text read at a poll. Returns the event to report when it
    /// differs from the last text seen, and remembers it.
    pub fn observe(&mut self, current: String) -> (r: Option<ClipboardEvent>)
        ensures
            final(self).poll_interval == old(self).poll_interval,
            final(self).callback == old(self).callback,
            final(self).last_content@ == current@,
            current@ == old(self).last_content@ ==> r is None,
            current@ != old(self).last_content@ ==> (r matches Some(e) && e.0@ == current@),
    {
        if current == self.last_content {
            None
        } else {
            self.last_content = current.clone();
            Some(ClipboardEvent(current))
        }
    }
}

/// What a file system trigger with `watched` paths reports as it starts.
pub open spec fn missing_paths_event_of(watched: nat) -> Option<TriggerEvent> {
    if watched == 0 {
        Some(TriggerEvent::ErrorFatal(Error::NoWatchPaths()))
    } else {
        None
    }
}

/// A trigger that runs its callback on each change under its watched paths.
pub struct FileSystemTrigger<C> {
    pub callback: C,
    pub config: Option<notify::Config>,
    /// Each watched path, with whether its subdirectories are watched too.
    pub watch_paths: Vec<(PathBuf, bool)>,
}

impl<C> FileSystemTrigger<C> {
    pub fn new(callback: C) -> (r: Self)
        ensures
            r.callback == callback,
            r.config is None,
            r.watch_paths@.len() == 0,
    {
        FileSystemTrigger { callback, config: None, watch_paths: Vec::new() }
    }

    pub fn with_config(self, config: notify::Config) -> (r: Self)
        ensures
            r.config == Some(config),
            r.callback == self.callback,
            r.watch_paths@ == self.watch_paths@,
    {
        let mut t = self;
        t.config = Some(config);
        t
    }

    /// Adds a path to watch, with or without its subdirectories.
    pub fn watch_path(self, path: PathBuf, recursive: bool) -> (r: Self)
        ensures
            r.watch_paths@ == self.watch_paths@.push((path, recursive)),
            r.callback == self.callback,
            r.config == self.config,
    {
        let mut t = self;
        t.watch_paths.push((path, recursive));
        t
    }

    pub fn watch_count(&self) -> (r: usize)
        ensures
            r == self.watch_paths@.len(),
    {
        self.watch_paths.len()
    }

    /// What the trigger reports when it starts with nothing to watch: a
    /// fatal `NoWatchPaths`, so that the run shuts down through the usual
    /// path. `None` when there is something to watch.
    pub fn missing_paths_event(&self) -> (r: Option<TriggerEvent>)
        ensures
            r == missing_paths_event_of(self.watch_paths@.len()),
    {
        if self.watch_paths.len() == 0 {
            Some(TriggerEvent::ErrorFatal(Error::NoWatchPaths()))
        } else {
            None
        }
    }
}

} // verus!
