//! Interrupt and terminate signals for child processes, on platforms that
//! deliver them in different ways.
//!
//! POSIX systems signal one process by its identifier; Windows raises a
//! console control event for a process group. This crate holds the decisions
//! that are common to both: which identifier may be signalled, which call of
//! the operating system delivers a given signal, what the answer of that call
//! means, and how a process has to be created so that it can be reached.
//!
//! The crate spawns and signals nothing itself. Every operation that ends in
//! work of the operating system returns a value that describes that work
//! ([`Delivery`], the creation flags of [`spawn_interruptible`]), and a
//! second function takes what the operating system answered
//! ([`Delivery::outcome`], [`adopt`]).

pub mod capability;
pub mod dispatch;
pub mod error;
pub mod handle;
pub mod laws;
pub mod signal;
pub mod spawn;

pub use capability::{resolve, Interruptible};
pub use dispatch::{
    dispatch, generate_event, interrupt, send_signal, terminate, try_generate_event,
    try_send_signal, Delivery, MAX_POSIX_PID,
};
pub use error::SignalError;
pub use handle::{HandleState, InterruptibleChild, Liveness};
pub use signal::{Platform, SignalKind};
pub use spawn::{
    adopt, configure_for_signaling, set_creation_flags, spawn_interruptible, ProcessConfig,
    CREATE_NEW_PROCESS_GROUP,
};
