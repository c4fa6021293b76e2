use vstd::prelude::*;
use crate::triggers::FileSystemTrigger;
use std::path::PathBuf;

verus! {

/// The registry of a run: the triggers, in the order registered, and the
/// error handler, if one was set. `T` is the form in which triggers are
/// held (a boxed trigger of any kind), `H` the error handler.
pub struct Automat<T, H> {
    pub triggers: Vec<T>,
    pub error_handler: Option<H>,
}

impl<T, H> Automat<T, H> {
    pub fn new() -> (r: Self)
        ensures
            r.triggers@.len() == 0,
            r.error_handler is None,
    {
        Automat { triggers: Vec::new(), error_handler: None }
    }

    /// Sets the error handler, replacing any earlier one.
    pub fn on_error(self, handler: H) -> (r: Self)
        ensures
            r.error_handler == Some(handler),
            r.triggers@ == self.triggers@,
    {
        let mut a = self;
        a.error_handler = Some(handler);
        a
    }

    /// Registers a trigger after those already registered.
    pub fn with_trigger(self, trigger: T) -> (r: Self)
        ensures
            r.triggers@ == self.triggers@.push(trigger),
            r.error_handler == self.error_handler,
    {
        let mut a = self;
        a.triggers.push(trigger);
        a
    }

    /// Registers the triggers of `other` after those already registered,
    /// keeping their order; the error handler of `other` is dropped.
    pub fn extend(self, other: Automat<T, H>) -> (r: Self)
        ensures
            r.triggers@ == self.triggers@ + other.triggers@,
            r.error_handler == self.error_handler,
    {
        let mut a = self;
        let mut more = other.triggers;
        a.triggers.append(&mut more);
        a
    }

    /// Registers the trigger that `builder_fn` makes from a fresh file
    /// system builder.
    pub fn with_fs_watch<B>(self, builder_fn: B) -> (r: Self)
        where
            B: FnOnce(FileSystemBuilder) -> T,
        requires
            forall|b: FileSystemBuilder| builder_fn.requires((b,)),
        ensures
            exists|b: FileSystemBuilder, t: T| {
                &&& b.paths@.len() == 0
                &&& b.config is None
                &&& builder_fn.ensures((b,), t)
                &&& r.triggers@ == self.triggers@.push(t)
            },
            r.error_handler == self.error_handler,
    {
        let builder = FileSystemBuilder::new();
        let ghost b = builder;
        let trigger = builder_fn(builder);
        let r = self.with_trigger(trigger);
        proof {
            assert(builder_fn.ensures((b,), trigger));
        }
        r
    }

    pub fn trigger_count(&self) -> (r: usize)
        ensures
            r == self.triggers@.len(),
    {
        self.triggers.len()
    }

    /// Hands over the triggers and the error handler, as a run begins.
    pub fn into_parts(self) -> (r: (Vec<T>, Option<H>))
        ensures
            r.0@ == self.triggers@,
            r.1 == self.error_handler,
    {
        (self.triggers, self.error_handler)
    }
}

impl<T, H> Default for Automat<T, H> {
    fn default() -> (r: Self)
        ensures
            r.triggers@.len() == 0,
            r.error_handler is None,
    {
        Self::new()
    }
}

/// Collects the configuration of a file system trigger before its callback is given.
pub struct FileSystemBuilder {
    /// Each path to watch, with whether its subdirectories are watched too.
    pub paths: Vec<(PathBuf, bool)>,
    pub config: Option<notify::Config>,
}

impl FileSystemBuilder {
    pub fn new() -> (r: Self)
        ensures
            r.paths@.len() == 0,
            r.config is None,
    {
        FileSystemBuilder { paths: Vec::new(), config: None }
    }

    /// Adds a path to watch, with or without its subdirectories.
    pub fn watch(self, path: PathBuf, recursive: bool) -> (r: Self)
        ensures
            r.paths@ == self.paths@.push((path, recursive)),
            r.config == self.config,
    {
        let mut b = self;
        b.paths.push((path, recursive));
        b
    }

    /// Adds several paths to watch, in order.
    pub fn watch_many(self, paths: Vec<(PathBuf, bool)>) -> (r: Self)
        ensures
            r.paths@ == self.paths@ + paths@,
            r.config == self.config,
    {
        let mut b = self;
        let mut more = paths;
        b.paths.append(&mut more);
        b
    }

    /// Adds a directory to watch with all its subdirectories.
    pub fn watch_recursive(self, path: PathBuf) -> (r: Self)
        ensures
            r.paths@ == self.paths@.push((path, true)),
            r.config == self.config,
    {
        self.watch(path, true)
    }

    /// Adds a path to watch without its subdirectories.
    pub fn watch_non_recursive(self, path: PathBuf) -> (r: Self)
        ensures
            r.paths@ == self.paths@.push((path, false)),
            r.config == self.config,
    {
        self.watch(path, false)
    }

    pub fn with_config(self, config: notify::Config) -> (r: Self)
        ensures
            r.config == Some(config),
            r.paths@ == self.paths@,
    {
        let mut b = self;
        b.config = Some(config);
        b
    }

    pub fn watch_count(&self) -> (r: usize)
        ensures
            r == self.paths@.len(),
    {
        self.paths.len()
    }

    /// Builds the trigger with the given callback, watching the collected
    /// paths in the order added. No check is made here: a trigger without
    /// paths reports that when it starts.
    pub fn on_event<C>(self, callback: C) -> (r: FileSystemTrigger<C>)
        ensures
            r.callback == callback,
            r.config == self.config,
            r.watch_paths@ == self.paths@,
    {
        FileSystemTrigger { callback, config: self.config, watch_paths: self.paths }
    }
}

impl Default for FileSystemBuilder {
    fn default() -> (r: Self)
        ensures
            r.paths@.len() == 0,
            r.config is None,
    {
        Self::new()
    }
}

} // verus!
