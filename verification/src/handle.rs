//! The handle to a spawned child, as far as signalling is concerned.

use vstd::prelude::*;
use crate::capability::valid_lookup;
use crate::error::SignalError;

verus! {

/// Where a child process stands.
#[derive(Clone, Copy, Debug, PartialEq, Eq, Structural)]
pub enum HandleState {
    /// The process is believed to be running under the identifier `raw_id`,
    /// which the host reported when it spawned the process.
    Running { raw_id: u32 },
    /// The exit of the process has been observed. Its identifier is gone for
    /// good: the operating system may hand it to another process.
    Reaped,
}

/// What a non-blocking liveness check of the host found.
#[derive(Clone, Copy, Debug, PartialEq, Eq, Structural)]
pub enum Liveness {
    /// No exit status yet: the process is still running.
    Running,
    /// The exit status of the process has been observed.
    Exited,
    /// The check itself failed, with this code of the operating system.
    CheckFailed { os_error: i32 },
}

impl HandleState {
    /// The state after the host reported `seen`. An exit is final: nothing
    /// leads back from `Reaped`.
    pub open spec fn after(self, seen: Liveness) -> HandleState {
        match self {
            HandleState::Reaped => HandleState::Reaped,
            HandleState::Running { raw_id } => match seen {
                Liveness::Exited => HandleState::Reaped,
                _ => self,
            },
        }
    }

    /// The identifier that may be signalled in this state.
    pub open spec fn identifier(self) -> Option<u32> {
        match self {
            HandleState::Running { raw_id } => Some(raw_id),
            HandleState::Reaped => None,
        }
    }

    /// What an identifier lookup reports when the liveness check that it
    /// made found `seen`.
    pub open spec fn lookup(self, seen: Liveness) -> Result<Option<u32>, SignalError> {
        match self.after(seen) {
            HandleState::Reaped => Ok(None),
            HandleState::Running { raw_id } => match seen {
                Liveness::CheckFailed { os_error } => Err(SignalError::LivenessCheck { os_error }),
                _ => Ok(Some(raw_id)),
            },
        }
    }
}

/// A child process that can be interrupted.
///
/// The handle follows the process from `Running` to `Reaped` and gives out
/// its identifier only while it is running. It cannot ask the host for the
/// state of the process itself, so each lookup takes what a liveness check
/// found: there is no way to an identifier that does not pass one.
#[derive(Debug)]
pub struct InterruptibleChild {
    state: HandleState,
}

impl View for InterruptibleChild {
    type V = HandleState;

    closed spec fn view(&self) -> HandleState {
        self.state
    }
}

impl InterruptibleChild {
    /// The identifier of a running process is never zero. Every handle
    /// keeps to this.
    #[verifier::type_invariant]
    pub open spec fn wf(&self) -> bool {
        self@ matches HandleState::Running { raw_id } ==> raw_id > 0
    }

    /// The handle of a process that the host has just spawned under the
    /// identifier `raw_id`.
    pub fn spawned(raw_id: u32) -> (child: InterruptibleChild)
        requires
            raw_id > 0,
        ensures
            child@ == (HandleState::Running { raw_id }),
            child.wf(),
    {
        InterruptibleChild { state: HandleState::Running { raw_id } }
    }

    /// Where the process stands, as far as the handle knows.
    pub fn state(&self) -> (state: HandleState)
        ensures
            state == self@,
            self.wf(),
    {
        proof {
            use_type_invariant(self);
        }
        self.state
    }

    /// Looks up the identifier of the process, given what a non-blocking
    /// liveness check made just now found.
    ///
    /// An observed exit reaps the handle, and a reaped handle has no
    /// identifier whatever is seen later. A check that failed is an error of
    /// its own, and leaves a running handle running.
    pub fn pid(&mut self, seen: Liveness) -> (found: Result<Option<u32>, SignalError>)
        ensures
            final(self)@ == old(self)@.after(seen),
            found == old(self)@.lookup(seen),
            valid_lookup(found),
            final(self).wf(),
    {
        proof {
            use_type_invariant(&*self);
        }
        match self.state {
            HandleState::Reaped => Ok(None),
            HandleState::Running { raw_id } => match seen {
                Liveness::Exited => {
                    self.state = HandleState::Reaped;
                    Ok(None)
                },
                Liveness::Running => Ok(Some(raw_id)),
                Liveness::CheckFailed { os_error } => Err(SignalError::LivenessCheck { os_error }),
            },
        }
    }
}

} // verus!
