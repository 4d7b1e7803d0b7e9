//! The capability contract: what a handle to a spawned process offers.

use vstd::prelude::*;
use crate::dispatch::{delivery_for, dispatch, Delivery};
use crate::error::SignalError;
use crate::signal::{Platform, SignalKind};

verus! {

/// Whether an identifier lookup found that the process is complete.
pub open spec fn is_complete(found: Result<Option<u32>, SignalError>) -> bool {
    found == Ok::<Option<u32>, SignalError>(None)
}

/// Whether an identifier lookup gave what a lookup may give: an identifier
/// that is present is not zero.
pub open spec fn valid_lookup(found: Result<Option<u32>, SignalError>) -> bool {
    found matches Ok(Some(pid)) ==> pid > 0
}

/// What sending `kind` comes to, for a handle whose identifier lookup gave
/// `found`.
///
/// A failed lookup is passed on as it is. A lookup that found the process
/// complete gives [`SignalError::AlreadyComplete`]. Only an identifier that
/// is present is turned into the call that delivers the signal, and only if
/// it names one process on the platform.
pub open spec fn resolved(
    found: Result<Option<u32>, SignalError>,
    platform: Platform,
    kind: SignalKind,
) -> Result<Delivery, SignalError> {
    match found {
        Err(e) => Err(e),
        Ok(None) => Err(SignalError::AlreadyComplete),
        Ok(Some(pid)) => delivery_for(platform, kind, pid),
    }
}

/// Whether `r` is what sending `kind` comes to for some result that an
/// identifier lookup may give.
pub open spec fn follows_lookup(
    r: Result<Delivery, SignalError>,
    platform: Platform,
    kind: SignalKind,
) -> bool {
    exists|found: Result<Option<u32>, SignalError>|
        valid_lookup(found) && r == #[trigger] resolved(found, platform, kind)
}

/// Decides what sending `kind` comes to, from the result of an identifier
/// lookup.
///
/// A handle that was found complete is refused here, so that no call of the
/// operating system is ever planned for an identifier that is gone; and so
/// is a number that does not name one process, whoever reported it.
pub fn resolve(found: Result<Option<u32>, SignalError>, platform: Platform, kind: SignalKind) -> (r:
    Result<Delivery, SignalError>)
    ensures
        r == resolved(found, platform, kind),
{
    match found {
        Err(e) => Err(e),
        Ok(None) => Err(SignalError::AlreadyComplete),
        Ok(Some(pid)) => dispatch(platform, kind, pid),
    }
}

/// A handle to a child process that can be sent interrupts.
///
/// An implementation states that the process was created in such a way that
/// signals reach it. It supplies the identifier lookup; sending a signal is
/// built on it.
pub trait Interruptible {
    /// Looks up the identifier of the process.
    ///
    /// `Ok(Some(pid))` while the process is believed to be running,
    /// `Ok(None)` once it is known to have exited, and an error
    /// ([`SignalError::LivenessCheck`]) only where asking for its state
    /// failed. An implementation asks for the state of the process, without
    /// blocking, before it reports an identifier: the identifier of a
    /// process that was reaped may belong to another process by now.
    ///
    /// Which of these comes back depends on the process, so that is not
    /// promised here; [`resolve`] says what is made of each result. An
    /// identifier that is reported is the one that the operating system
    /// assigned, and so not zero.
    fn pid(&mut self) -> (found: Result<Option<u32>, SignalError>)
        ensures
            valid_lookup(found),
    ;

    /// Plans an interrupt for the process: `SIGINT` on POSIX, `CTRL_C_EVENT`
    /// on Windows.
    ///
    /// Makes one identifier lookup and returns what [`resolve`] makes of it:
    /// the call that delivers the interrupt, the error of the lookup, or
    /// [`SignalError::AlreadyComplete`] where there is no identifier.
    fn interrupt(&mut self, platform: Platform) -> (r: Result<Delivery, SignalError>)
        ensures
            follows_lookup(r, platform, SignalKind::Interrupt),
    {
        let found = self.pid();
        resolve(found, platform, SignalKind::Interrupt)
    }

    /// Plans a request to terminate for the process: `SIGTERM` on POSIX,
    /// `CTRL_BREAK_EVENT` on Windows.
    ///
    /// Makes one identifier lookup and returns what [`resolve`] makes of it:
    /// the call that delivers the request, the error of the lookup, or
    /// [`SignalError::AlreadyComplete`] where there is no identifier.
    fn terminate(&mut self, platform: Platform) -> (r: Result<Delivery, SignalError>)
        ensures
            follows_lookup(r, platform, SignalKind::Terminate),
    {
        let found = self.pid();
        resolve(found, platform, SignalKind::Terminate)
    }
}

} // verus!
