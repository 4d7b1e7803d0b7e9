//! The kinds of signal and the mechanisms that deliver them.

use vstd::prelude::*;

verus! {

/// A request to stop that a child process can be sent.
#[derive(Clone, Copy, Debug, PartialEq, Eq, Structural)]
pub enum SignalKind {
    /// A request for a graceful, cooperative stop: `SIGINT`, or `CTRL_C_EVENT`.
    Interrupt,
    /// A stronger request that still leaves the process time to clean up:
    /// `SIGTERM`, or `CTRL_BREAK_EVENT`.
    Terminate,
}

/// The mechanism by which the target platform delivers signals.
#[derive(Clone, Copy, Debug, PartialEq, Eq, Structural)]
pub enum Platform {
    /// Signals are sent to one process, by its identifier.
    Posix,
    /// Console control events are raised for a process group.
    Console,
    /// The platform has neither mechanism.
    Unsupported,
}

impl SignalKind {
    /// The number of the POSIX signal that stands for this kind.
    pub open spec fn posix_signal(self) -> i32 {
        match self {
            SignalKind::Interrupt => 2,
            SignalKind::Terminate => 15,
        }
    }

    /// The code of the console control event that stands for this kind.
    pub open spec fn console_event(self) -> u32 {
        match self {
            SignalKind::Interrupt => 0,
            SignalKind::Terminate => 1,
        }
    }
}

impl Platform {
    /// Whether the platform can deliver a signal at all.
    pub open spec fn is_supported(self) -> bool {
        self != Platform::Unsupported
    }
}

/// The signal number `libc::SIGINT`.
///
/// Not proved: that the constant is 2, as the libc crate defines it on
/// each of its targets.
#[verifier::external_body]
pub(crate) fn sigint() -> (signal: i32)
    ensures
        signal == 2,
{
    libc::SIGINT
}

/// The signal number `libc::SIGTERM`.
///
/// Not proved: that the constant is 15, as the libc crate defines it on
/// each of its targets.
#[verifier::external_body]
pub(crate) fn sigterm() -> (signal: i32)
    ensures
        signal == 15,
{
    libc::SIGTERM
}

/// The event code `windows_sys::Win32::System::Console::CTRL_C_EVENT`.
///
/// Not proved: that the constant is 0, as the windows-sys crate defines
/// it.
#[verifier::external_body]
pub(crate) fn ctrl_c_event() -> (event: u32)
    ensures
        event == 0,
{
    windows_sys::Win32::System::Console::CTRL_C_EVENT
}

/// The event code `windows_sys::Win32::System::Console::CTRL_BREAK_EVENT`.
///
/// Not proved: that the constant is 1, as the windows-sys crate defines
/// it.
#[verifier::external_body]
pub(crate) fn ctrl_break_event() -> (event: u32)
    ensures
        event == 1,
{
    windows_sys::Win32::System::Console::CTRL_BREAK_EVENT
}

} // verus!
