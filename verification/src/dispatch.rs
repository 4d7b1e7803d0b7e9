//! Platform dispatch: the call of the operating system that delivers a
//! signal, and the meaning of its answer.

use vstd::prelude::*;
use crate::error::SignalError;
use crate::signal::{ctrl_break_event, ctrl_c_event, sigint, sigterm, Platform, SignalKind};

verus! {

/// The largest process identifier that `kill` can be handed: it takes a
/// signed identifier of 32 bits.
pub const MAX_POSIX_PID: u32 = 0x7fff_ffff;

/// One call of the operating system that delivers a signal.
///
/// The caller makes the call with exactly these arguments and hands what it
/// returned to [`Delivery::outcome`].
#[derive(Clone, Copy, Debug, PartialEq, Eq, Structural)]
pub enum Delivery {
    /// POSIX `kill(pid, signal)`.
    Kill { pid: i32, signal: i32 },
    /// Windows `GenerateConsoleCtrlEvent(event, process_group)`.
    ConsoleCtrlEvent { event: u32, process_group: u32 },
}

/// Whether `pid` names one process for `kill`.
///
/// Zero would stand for the process group of the caller, and a number above
/// [`MAX_POSIX_PID`] would turn negative and stand for a process group, or
/// for every process at once.
pub open spec fn is_posix_pid(pid: u32) -> bool {
    0 < pid <= MAX_POSIX_PID
}

/// Whether `pid` names the process group of one child for a console control
/// event. Zero would stand for every process on the console of the caller.
pub open spec fn is_console_group(pid: u32) -> bool {
    pid != 0
}

/// Whether `pid` can be signalled on `platform`.
pub open spec fn is_signalable(platform: Platform, pid: u32) -> bool {
    match platform {
        Platform::Posix => is_posix_pid(pid),
        Platform::Console => is_console_group(pid),
        Platform::Unsupported => false,
    }
}

/// The call that delivers `kind` to the process `pid` on `platform`, or why
/// there is none.
pub open spec fn delivery_for(platform: Platform, kind: SignalKind, pid: u32) -> Result<
    Delivery,
    SignalError,
> {
    match platform {
        Platform::Posix => if is_posix_pid(pid) {
            Ok(Delivery::Kill { pid: pid as i32, signal: kind.posix_signal() })
        } else {
            Err(SignalError::InvalidIdentifier { pid })
        },
        Platform::Console => if is_console_group(pid) {
            Ok(Delivery::ConsoleCtrlEvent { event: kind.console_event(), process_group: pid })
        } else {
            Err(SignalError::InvalidIdentifier { pid })
        },
        Platform::Unsupported => Err(SignalError::Unsupported),
    }
}

/// The POSIX call that sends the signal numbered `signal` to the process
/// `pid`.
pub fn send_signal(pid: u32, signal: i32) -> (call: Delivery)
    requires
        is_posix_pid(pid),
    ensures
        call == (Delivery::Kill { pid: pid as i32, signal }),
{
    Delivery::Kill { pid: pid as i32, signal }
}

/// The Windows call that raises the console control event `event` for the
/// process group that `pid` leads.
///
/// The event reaches the process only if it was created as the leader of a
/// new process group, as [`crate::spawn::configure_for_signaling`] arranges.
pub fn generate_event(pid: u32, event: u32) -> (call: Delivery)
    requires
        is_console_group(pid),
    ensures
        call == (Delivery::ConsoleCtrlEvent { event, process_group: pid }),
{
    Delivery::ConsoleCtrlEvent { event, process_group: pid }
}

/// Plans [`send_signal`] where `pid` names one process, and refuses a number
/// that does not.
pub fn try_send_signal(pid: u32, signal: i32) -> (r: Result<Delivery, SignalError>)
    ensures
        is_posix_pid(pid) ==> r == Ok::<Delivery, SignalError>(
            Delivery::Kill { pid: pid as i32, signal },
        ),
        !is_posix_pid(pid) ==> r == Err::<Delivery, SignalError>(
            SignalError::InvalidIdentifier { pid },
        ),
{
    if 0 < pid && pid <= MAX_POSIX_PID {
        Ok(send_signal(pid, signal))
    } else {
        Err(SignalError::InvalidIdentifier { pid })
    }
}

/// Plans [`generate_event`] where `pid` names a process group, and refuses
/// zero.
pub fn try_generate_event(pid: u32, event: u32) -> (r: Result<Delivery, SignalError>)
    ensures
        is_console_group(pid) ==> r == Ok::<Delivery, SignalError>(
            Delivery::ConsoleCtrlEvent { event, process_group: pid },
        ),
        !is_console_group(pid) ==> r == Err::<Delivery, SignalError>(
            SignalError::InvalidIdentifier { pid },
        ),
{
    if pid != 0 {
        Ok(generate_event(pid, event))
    } else {
        Err(SignalError::InvalidIdentifier { pid })
    }
}

/// The call that interrupts the process `pid`: `SIGINT` on POSIX,
/// `CTRL_C_EVENT` on Windows.
///
/// A number that does not name one process there gets
/// [`SignalError::InvalidIdentifier`], and a platform without either
/// mechanism gets [`SignalError::Unsupported`], never a silent success.
pub fn interrupt(platform: Platform, pid: u32) -> (r: Result<Delivery, SignalError>)
    ensures
        r == delivery_for(platform, SignalKind::Interrupt, pid),
{
    match platform {
        Platform::Posix => try_send_signal(pid, sigint()),
        Platform::Console => try_generate_event(pid, ctrl_c_event()),
        Platform::Unsupported => Err(SignalError::Unsupported),
    }
}

/// The call that asks the process `pid` to terminate: `SIGTERM` on POSIX,
/// `CTRL_BREAK_EVENT` on Windows.
///
/// A number that does not name one process there gets
/// [`SignalError::InvalidIdentifier`], and a platform without either
/// mechanism gets [`SignalError::Unsupported`], never a silent success.
pub fn terminate(platform: Platform, pid: u32) -> (r: Result<Delivery, SignalError>)
    ensures
        r == delivery_for(platform, SignalKind::Terminate, pid),
{
    match platform {
        Platform::Posix => try_send_signal(pid, sigterm()),
        Platform::Console => try_generate_event(pid, ctrl_break_event()),
        Platform::Unsupported => Err(SignalError::Unsupported),
    }
}

/// The call that delivers a signal of the given kind to the process `pid`.
pub fn dispatch(platform: Platform, kind: SignalKind, pid: u32) -> (r: Result<
    Delivery,
    SignalError,
>)
    ensures
        r == delivery_for(platform, kind, pid),
{
    match kind {
        SignalKind::Interrupt => interrupt(platform, pid),
        SignalKind::Terminate => terminate(platform, pid),
    }
}

impl Delivery {
    /// The process, or the process group, that the call is aimed at.
    pub open spec fn target(self) -> int {
        match self {
            Delivery::Kill { pid, .. } => pid as int,
            Delivery::ConsoleCtrlEvent { process_group, .. } => process_group as int,
        }
    }

    /// The number of the signal, or the code of the event, that the call
    /// carries.
    pub open spec fn code(self) -> int {
        match self {
            Delivery::Kill { signal, .. } => signal as int,
            Delivery::ConsoleCtrlEvent { event, .. } => event as int,
        }
    }

    /// Whether the value `returned` by the call reports success: 0 from
    /// `kill`, anything but 0 from `GenerateConsoleCtrlEvent`.
    pub open spec fn succeeded(self, returned: i32) -> bool {
        match self {
            Delivery::Kill { .. } => returned == 0,
            Delivery::ConsoleCtrlEvent { .. } => returned != 0,
        }
    }

    /// What the answer of the operating system means.
    pub open spec fn outcome_of(self, returned: i32, os_error: i32) -> Result<(), SignalError> {
        if self.succeeded(returned) {
            Ok(())
        } else {
            Err(SignalError::Delivery { os_error })
        }
    }

    /// Takes what the call returned, and the error code that the operating
    /// system held right after it, and says whether the signal was delivered.
    ///
    /// A failure keeps the code of the operating system as it is, be it "no
    /// such process" after the target exited in the meantime.
    pub fn outcome(&self, returned: i32, os_error: i32) -> (r: Result<(), SignalError>)
        ensures
            r == self.outcome_of(returned, os_error),
    {
        let delivered = match self {
            Delivery::Kill { .. } => returned == 0,
            Delivery::ConsoleCtrlEvent { .. } => returned != 0,
        };
        if delivered {
            Ok(())
        } else {
            Err(SignalError::Delivery { os_error })
        }
    }
}

} // verus!
