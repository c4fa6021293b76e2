use vstd::prelude::*;
use arboard::Error as ArboardError;
use notify::Error as NotifyFailure;

verus! {

/// Declares `std::io::Error` so that the library's errors can carry it.
#[verifier::external_type_specification]
#[verifier::external_body]
pub struct ExIoError(std::io::Error);

/// Declares enigo's `InputError` so that the library's errors can carry it.
#[verifier::external_type_specification]
#[verifier::external_body]
pub struct ExInputError(enigo::InputError);

/// Declares arboard's `Error` so that the library's errors can carry it.
#[verifier::external_type_specification]
#[verifier::external_body]
pub struct ExClipboardError(ArboardError);

/// Declares notify's `Error` so that the library's errors can carry it.
#[verifier::external_type_specification]
#[verifier::external_body]
pub struct ExNotifyError(NotifyFailure);

/// Everything that can go wrong in a trigger, an action or a run.
#[derive(Debug)]
pub enum Error {
    IoError(std::io::Error),
    InputError(enigo::InputError),
    WindowStateError(String),
    WindowListError(String),
    WindowTitleError(String),
    ClipboardError(ArboardError),
    /// A display query failed; the message of the display backend.
    DIError(String),
    NotifyError(NotifyFailure),
    NoWatchPaths(),
    FileWatcherStopped,
    /// A user callback failed; the message of its error.
    CallbackError(String),
    ChannelSend,
}

pub type Result<T> = std::result::Result<T, Error>;

impl From<std::io::Error> for Error {
    fn from(e: std::io::Error) -> (r: Error)
        ensures
            r == Error::IoError(e),
    {
        Error::IoError(e)
    }
}

impl vstd::std_specs::convert::FromSpecImpl<std::io::Error> for Error {
    open spec fn obeys_from_spec() -> bool {
        true
    }

    open spec fn from_spec(e: std::io::Error) -> Error {
        Error::IoError(e)
    }
}

impl From<enigo::InputError> for Error {
    fn from(e: enigo::InputError) -> (r: Error)
        ensures
            r == Error::InputError(e),
    {
        Error::InputError(e)
    }
}

impl vstd::std_specs::convert::FromSpecImpl<enigo::InputError> for Error {
    open spec fn obeys_from_spec() -> bool {
        true
    }

    open spec fn from_spec(e: enigo::InputError) -> Error {
        Error::InputError(e)
    }
}

impl From<ArboardError> for Error {
    fn from(e: ArboardError) -> (r: Error)
        ensures
            r == Error::ClipboardError(e),
    {
        Error::ClipboardError(e)
    }
}

impl vstd::std_specs::convert::FromSpecImpl<ArboardError> for Error {
    open spec fn obeys_from_spec() -> bool {
        true
    }

    open spec fn from_spec(e: ArboardError) -> Error {
        Error::ClipboardError(e)
    }
}

impl From<NotifyFailure> for Error {
    fn from(e: NotifyFailure) -> (r: Error)
        ensures
            r == Error::NotifyError(e),
    {
        Error::NotifyError(e)
    }
}

impl vstd::std_specs::convert::FromSpecImpl<NotifyFailure> for Error {
    open spec fn obeys_from_spec() -> bool {
        true
    }

    open spec fn from_spec(e: NotifyFailure) -> Error {
        Error::NotifyError(e)
    }
}

} // verus!
