//! Failures of a session and of the operations its host performs.

use vstd::prelude::*;

verus! {

/// What the library reads of a failed operation's cause.
#[derive(Clone, Copy, Debug, PartialEq, Eq, Structural)]
pub enum FailureKind {
    /// The operation did not complete within its deadline.
    TimedOut,
    /// The named thing does not exist.
    NotFound,
    /// Any other cause.
    Other,
}

/// A failed operation of the host: its cause, and the text to show the user.
#[derive(Clone, Debug, PartialEq, Eq)]
pub struct IoFailure {
    pub kind: FailureKind,
    pub message: String,
}

impl IoFailure {
    /// True exactly for a failure that is an expired deadline.
    pub open spec fn timed_out(self) -> bool {
        self.kind == FailureKind::TimedOut
    }

    /// Whether this failure is an expired deadline.
    pub fn is_timeout(&self) -> (answer: bool)
        ensures
            answer == self.timed_out(),
    {
        self.kind == FailureKind::TimedOut
    }

    /// Whether this failure says that the named thing does not exist.
    pub fn is_not_found(&self) -> (answer: bool)
        ensures
            answer == (self.kind == FailureKind::NotFound),
    {
        self.kind == FailureKind::NotFound
    }
}

/// Why a session did not start, or why it ended early.
#[derive(Clone, Debug, PartialEq, Eq)]
pub enum Error {
    /// A line parameter has a value that no device accepts; holds the
    /// rejected data-bits text.
    Configuration(String),
    /// The device failed for a reason other than an expired deadline.
    Device(IoFailure),
    /// Reading a keyboard or resize event from the host failed.
    HostInput(IoFailure),
    /// The host's screen failed: it could not be taken over, or it refused
    /// the bytes received from the line.
    HostOutput(IoFailure),
}

/// Reads an expired deadline as "nothing yet": the outcome `empty`, not a
/// failure. Every other failure is a failure of the device.
pub open spec fn timeout_as_empty<T>(outcome: Result<T, IoFailure>, empty: T) -> Result<T, Error> {
    match outcome {
        Ok(value) => Ok(value),
        Err(failure) => if failure.timed_out() {
            Ok(empty)
        } else {
            Err(Error::Device(failure))
        },
    }
}

/// Turns the raw outcome of a device operation into what the session sees:
/// an expired deadline becomes the successful outcome `empty`.
pub fn settle<T>(outcome: Result<T, IoFailure>, empty: T) -> (settled: Result<T, Error>)
    ensures
        settled == timeout_as_empty(outcome, empty),
{
    match outcome {
        Ok(value) => Ok(value),
        Err(failure) => {
            if failure.is_timeout() {
                Ok(empty)
            } else {
                Err(Error::Device(failure))
            }
        },
    }
}

} // verus!
