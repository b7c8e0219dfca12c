//! The error taxonomy of an observation session, and the one descriptive
//! line with which a start fails.

use vstd::prelude::*;
use vstd::string::*;

verus! {

/// Everything that can go wrong while a process is observed.
///
/// The first three variants end a session before it begins.  The other three
/// arise while a session runs and never end it.
#[derive(Clone, Copy, Debug, PartialEq, Eq, Structural)]
pub enum ObserverError {
    /// The operating system gave no pid for the calling process, or the
    /// requested pid was absent from the initial snapshot.
    ProcessNotFound,
    /// The process could not be read when its identity tags were to be built.
    IdentityUnavailable,
    /// The number of physical cores is unknown.
    CoreCountUnavailable,
    /// The process could not be read during one tick.
    TickReadFailure,
    /// A counter does not fit the value type of its instrument.
    NumericConversionFailure,
    /// No GPU management interface is present.
    GpuUnavailable,
}

impl ObserverError {
    /// Whether the error prevents a session from starting.
    pub open spec fn fatal(self) -> bool {
        self is ProcessNotFound || self is IdentityUnavailable || self is CoreCountUnavailable
    }

    /// The text of [`ObserverError::message`].
    pub open spec fn message_text(self) -> Seq<char> {
        match self {
            ObserverError::ProcessNotFound => "could not find the process to observe"@,
            ObserverError::IdentityUnavailable => "could not read the identity of the process"@,
            ObserverError::CoreCountUnavailable => "Could not get physical core count"@,
            ObserverError::TickReadFailure => "could not read the process, tick skipped"@,
            ObserverError::NumericConversionFailure => "counter out of range, observation skipped"@,
            ObserverError::GpuUnavailable =>
                "Could not get NVML, recording 0 for GPU memory usage"@,
        }
    }

    /// Whether the error prevents a session from starting.  Errors that are
    /// not fatal cost at most one tick or one observation.
    pub fn is_fatal(&self) -> (fatal: bool)
        ensures
            fatal == self.fatal(),
    {
        match self {
            ObserverError::ProcessNotFound => true,
            ObserverError::IdentityUnavailable => true,
            ObserverError::CoreCountUnavailable => true,
            ObserverError::TickReadFailure => false,
            ObserverError::NumericConversionFailure => false,
            ObserverError::GpuUnavailable => false,
        }
    }

    /// One descriptive line for the error.
    pub fn message(&self) -> (text: String)
        ensures
            text@ == self.message_text(),
    {
        match self {
            ObserverError::ProcessNotFound => String::from_str(
                "could not find the process to observe",
            ),
            ObserverError::IdentityUnavailable => String::from_str(
                "could not read the identity of the process",
            ),
            ObserverError::CoreCountUnavailable => String::from_str(
                "Could not get physical core count",
            ),
            ObserverError::TickReadFailure => String::from_str(
                "could not read the process, tick skipped",
            ),
            ObserverError::NumericConversionFailure => String::from_str(
                "counter out of range, observation skipped",
            ),
            ObserverError::GpuUnavailable => String::from_str(
                "Could not get NVML, recording 0 for GPU memory usage",
            ),
        }
    }
}

/// The line that tells that the operating system gave no pid for the calling
/// process, and why.
pub open spec fn current_pid_failure_text(reason: Seq<char>) -> Seq<char> {
    "could not get current pid. Error: "@ + reason
}

/// The line that tells that the operating system gave no pid for the calling
/// process: a fixed beginning, then the reason as the operating system
/// worded it.
pub fn current_pid_failure(reason: &str) -> (text: String)
    ensures
        text@ == current_pid_failure_text(reason@),
{
    let mut text = String::from_str("could not get current pid. Error: ");
    text.append(reason);
    text
}

/// Why a session did not start.
#[derive(Clone, Debug, PartialEq, Eq)]
pub struct StartFailure {
    /// The kind of the error, which is one of the three that are fatal.
    pub kind: ObserverError,
    /// One descriptive line.
    pub message: String,
}

/// What a [`StartFailure`] stands for.
pub struct StartFailureView {
    /// The kind of the error.
    pub kind: ObserverError,
    /// One descriptive line.
    pub message: Seq<char>,
}

impl View for StartFailure {
    type V = StartFailureView;

    open spec fn view(&self) -> StartFailureView {
        StartFailureView { kind: self.kind, message: self.message@ }
    }
}

impl StartFailureView {
    /// The failure of a kind, with the line of that kind.
    pub open spec fn of(kind: ObserverError) -> StartFailureView {
        StartFailureView { kind, message: kind.message_text() }
    }

    /// The failure of a start for the calling process whose pid the
    /// operating system did not give: no process is found, and the line holds
    /// the reason.
    pub open spec fn no_current_pid(reason: Seq<char>) -> StartFailureView {
        StartFailureView {
            kind: ObserverError::ProcessNotFound,
            message: current_pid_failure_text(reason),
        }
    }
}

impl StartFailure {
    /// The failure of a kind, with the line of that kind.
    pub fn of(kind: ObserverError) -> (failure: StartFailure)
        ensures
            failure@ == StartFailureView::of(kind),
    {
        StartFailure { kind, message: kind.message() }
    }

    /// The failure of a start for the calling process whose pid the
    /// operating system did not give.
    pub fn no_current_pid(reason: &str) -> (failure: StartFailure)
        ensures
            failure@ == StartFailureView::no_current_pid(reason@),
    {
        StartFailure { kind: ObserverError::ProcessNotFound, message: current_pid_failure(reason) }
    }
}

} // verus!
