//! The spawn adapter: what has to be settled before a process is created so
//! that signals reach it later.

use vstd::prelude::*;
use crate::handle::{HandleState, InterruptibleChild};
use crate::signal::Platform;

verus! {

/// The Windows creation flag that makes a new process the leader of a
/// process group of its own.
pub const CREATE_NEW_PROCESS_GROUP: u32 = 0x0000_0200;

/// The creation attributes of a process that has not been started yet.
///
/// A process keeps the attributes that it was created with, so whatever
/// signalling needs is set here, before the spawn.
#[derive(Clone, Copy, Debug)]
pub struct ProcessConfig {
    creation_flags: u32,
}

/// The creation flags that signalling on `platform` calls for, where the
/// configuration held `flags` before.
///
/// Console control events are sent to a process group. A child that shares
/// the group of its parent cannot be reached without reaching the parent, so
/// on Windows the child becomes the leader of a new group. A POSIX signal is
/// sent to one process, and nothing has to be arranged.
pub open spec fn configured_flags(platform: Platform, flags: u32) -> u32 {
    match platform {
        Platform::Console => CREATE_NEW_PROCESS_GROUP,
        _ => flags,
    }
}

impl ProcessConfig {
    /// The creation flags that the configuration holds.
    pub closed spec fn flags(&self) -> u32 {
        self.creation_flags
    }

    /// A configuration that holds the given creation flags; 0 stands for
    /// the defaults of the host.
    pub fn new(creation_flags: u32) -> (config: ProcessConfig)
        ensures
            config.flags() == creation_flags,
    {
        ProcessConfig { creation_flags }
    }

    /// The creation flags that the configuration holds.
    pub fn creation_flags(&self) -> (flags: u32)
        ensures
            flags == self.flags(),
    {
        self.creation_flags
    }
}

/// Sets the creation flags of `command` to [`CREATE_NEW_PROCESS_GROUP`], in
/// place of whatever flags it held.
pub fn set_creation_flags(command: &mut ProcessConfig)
    ensures
        final(command).flags() == CREATE_NEW_PROCESS_GROUP,
{
    command.creation_flags = CREATE_NEW_PROCESS_GROUP;
}

/// Prepares `config` so that the process created from it can be signalled
/// on `platform`.
pub fn configure_for_signaling(platform: Platform, config: &mut ProcessConfig)
    ensures
        final(config).flags() == configured_flags(platform, old(config).flags()),
{
    match platform {
        Platform::Console => set_creation_flags(config),
        _ => {},
    }
}

/// The first half of spawning an interruptible child: prepares `config` and
/// returns the creation flags with which the host is to create the process.
///
/// The flags returned are those that `config` holds afterwards, so the
/// process is created from a configuration that is already prepared. Once
/// the host has answered, [`adopt`] takes the answer; the configuration has
/// no part in that step.
pub fn spawn_interruptible(platform: Platform, config: &mut ProcessConfig) -> (attributes: u32)
    ensures
        final(config).flags() == configured_flags(platform, old(config).flags()),
        attributes == final(config).flags(),
{
    configure_for_signaling(platform, config);
    config.creation_flags()
}

/// Whether the identifier that the host reported, where it has created the
/// process, is one: an identifier is never zero.
pub open spec fn reports_identifier<H, E>(answer: Result<(H, u32), E>) -> bool {
    answer matches Ok((_, raw_id)) ==> raw_id > 0
}

/// Whether `r` is what [`adopt`] makes of the host's `answer`.
pub open spec fn adopted<H, E>(
    answer: Result<(H, u32), E>,
    r: Result<(H, InterruptibleChild), E>,
) -> bool {
    match answer {
        Ok((host, raw_id)) => r matches Ok((kept, child)) && kept == host && child@ == (
            HandleState::Running { raw_id }
        ),
        Err(e) => r == Err::<(H, InterruptibleChild), E>(e),
    }
}

/// The second half of spawning an interruptible child: takes what the host
/// answered to the spawn.
///
/// Where the host created the process, its own handle `H` comes back as it
/// is, next to a running [`InterruptibleChild`] for the identifier that the
/// host reported. Where the host failed to launch the process, its error
/// comes back unchanged.
pub fn adopt<H, E>(answer: Result<(H, u32), E>) -> (r: Result<(H, InterruptibleChild), E>)
    requires
        reports_identifier(answer),
    ensures
        adopted(answer, r),
{
    match answer {
        Ok((host, raw_id)) => Ok((host, InterruptibleChild::spawned(raw_id))),
        Err(e) => Err(e),
    }
}

} // verus!
