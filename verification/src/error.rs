//! The ways in which signalling a child process fails.

use vstd::prelude::*;

verus! {

/// Why an identifier could not be had or a signal could not be delivered.
///
/// Nothing is retried and nothing is recovered from: each failure goes back
/// to the caller as it is.
#[derive(Clone, Copy, Debug, PartialEq, Eq, Structural)]
pub enum SignalError {
    /// Asking whether the process is still alive failed. This is distinct
    /// from the process having exited; `os_error` is the code that the
    /// operating system gave.
    LivenessCheck { os_error: i32 },
    /// The process is known to be complete, so there is no identifier to
    /// signal. No call of the operating system is made.
    AlreadyComplete,
    /// The operating system refused the call. `os_error` is its own code,
    /// untouched.
    Delivery { os_error: i32 },
    /// The number `pid` cannot name a process on the platform: it is zero,
    /// or too large for the identifier that `kill` takes. No call of the
    /// operating system is made.
    InvalidIdentifier { pid: u32 },
    /// The platform has no mechanism to deliver signals.
    Unsupported,
}

impl SignalError {
    /// The text of [`SignalError::message`].
    pub open spec fn message_text(self) -> Seq<char> {
        match self {
            SignalError::LivenessCheck { .. } => "Could not determine whether the process is running"@,
            SignalError::AlreadyComplete => "Process is complete or has no pid"@,
            SignalError::Delivery { .. } => "The operating system did not deliver the signal"@,
            SignalError::InvalidIdentifier { .. } => "The identifier does not name a process"@,
            SignalError::Unsupported => "Signals are not implemented for this platform"@,
        }
    }

    /// The code of the operating system that the error carries, if it
    /// carries one.
    pub open spec fn os_error_code(self) -> Option<i32> {
        match self {
            SignalError::LivenessCheck { os_error } => Some(os_error),
            SignalError::Delivery { os_error } => Some(os_error),
            _ => None,
        }
    }

    /// A short description of the failure.
    pub fn message(&self) -> (text: &'static str)
        ensures
            text@ == self.message_text(),
    {
        match self {
            SignalError::LivenessCheck { .. } => "Could not determine whether the process is running",
            SignalError::AlreadyComplete => "Process is complete or has no pid",
            SignalError::Delivery { .. } => "The operating system did not deliver the signal",
            SignalError::InvalidIdentifier { .. } => "The identifier does not name a process",
            SignalError::Unsupported => "Signals are not implemented for this platform",
        }
    }

    /// The code of the operating system that the error carries.
    pub fn os_error(&self) -> (code: Option<i32>)
        ensures
            code == self.os_error_code(),
    {
        match self {
            SignalError::LivenessCheck { os_error } => Some(*os_error),
            SignalError::Delivery { os_error } => Some(*os_error),
            _ => None,
        }
    }
}

} // verus!
