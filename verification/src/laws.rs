//! Laws that hold of the crate as a whole, each proved from the definitions
//! that the contracts of its functions use.

use vstd::prelude::*;
use crate::capability::{follows_lookup, is_complete, resolved, valid_lookup};
use crate::dispatch::{delivery_for, is_signalable, Delivery};
use crate::error::SignalError;
use crate::handle::{HandleState, InterruptibleChild, Liveness};
use crate::signal::{Platform, SignalKind};
use crate::spawn::{configured_flags, CREATE_NEW_PROCESS_GROUP};

verus! {

/// A value by which the mechanism of `platform` reports that a signal was
/// delivered: 0 where `kill` is called, 1 where a console control event is
/// raised.
pub open spec fn success_value(platform: Platform) -> i32 {
    if platform == Platform::Posix {
        0
    } else {
        1
    }
}

/// A handle that is running reports the identifier that the host gave when
/// it spawned the process, and that identifier is positive. A liveness check
/// that finds the process running changes neither the answer nor the handle.
pub proof fn law_running_handle_reports_its_identifier(child: InterruptibleChild, raw_id: u32)
    requires
        child.wf(),
        child@ == (HandleState::Running { raw_id }),
    ensures
        raw_id > 0,
        child@.identifier() == Some(raw_id),
        child@.lookup(Liveness::Running) == Ok::<Option<u32>, SignalError>(Some(raw_id)),
        child@.after(Liveness::Running) == child@,
{
}

/// An identifier lookup fails only where the liveness check itself failed
/// on a handle that was running, and then it carries the code of the
/// operating system and leaves the handle running: a check that failed is
/// never taken for an exit.
pub proof fn law_lookup_fails_only_with_the_check(state: HandleState, seen: Liveness)
    ensures
        state.lookup(seen) is Err <==> state is Running && seen is CheckFailed,
        state is Running && seen is CheckFailed ==> state.after(seen) == state,
        state is Running && seen is CheckFailed ==> state.lookup(seen)
            == Err::<Option<u32>, SignalError>(
            SignalError::LivenessCheck { os_error: seen->os_error },
        ),
{
}

/// Observing the exit of the process reaps the handle, whatever its state
/// was, and nothing that is observed later leads back.
pub proof fn law_exit_is_final(state: HandleState, later: Liveness)
    ensures
        state.after(Liveness::Exited) == HandleState::Reaped,
        state.after(Liveness::Exited).after(later) == HandleState::Reaped,
        is_complete(state.lookup(Liveness::Exited)),
        is_complete(state.after(Liveness::Exited).lookup(later)),
{
}

/// Once the exit of the process has been observed, the handle has no
/// identifier, whatever is observed later, and a signal of either kind is
/// refused as already complete on every platform: no call of the operating
/// system comes of it.
pub proof fn law_reaped_handle_is_refused(
    state: HandleState,
    later: Liveness,
    platform: Platform,
    kind: SignalKind,
)
    ensures
        state.after(Liveness::Exited).identifier() == None::<u32>,
        resolved(Ok(state.after(Liveness::Exited).identifier()), platform, kind)
            == Err::<Delivery, SignalError>(SignalError::AlreadyComplete),
        resolved(state.after(Liveness::Exited).lookup(later), platform, kind)
            == Err::<Delivery, SignalError>(SignalError::AlreadyComplete),
{
}

/// A signal for a running handle whose identifier names one process on the
/// platform comes to exactly one call, aimed at that identifier and carrying
/// the code of the kind asked for; and the value by which the operating
/// system reports success makes the outcome of that call a success.
pub proof fn law_running_handle_is_signalled(
    child: InterruptibleChild,
    raw_id: u32,
    platform: Platform,
    kind: SignalKind,
    os_error: i32,
)
    requires
        child.wf(),
        child@ == (HandleState::Running { raw_id }),
        is_signalable(platform, raw_id),
    ensures
        resolved(Ok(child@.identifier()), platform, kind) == delivery_for(platform, kind, raw_id),
        platform == Platform::Posix ==> delivery_for(platform, kind, raw_id)
            == Ok::<Delivery, SignalError>(
            Delivery::Kill { pid: raw_id as i32, signal: kind.posix_signal() },
        ),
        platform == Platform::Console ==> delivery_for(platform, kind, raw_id)
            == Ok::<Delivery, SignalError>(
            Delivery::ConsoleCtrlEvent { event: kind.console_event(), process_group: raw_id },
        ),
        delivery_for(platform, kind, raw_id) matches Ok(call) && (call.outcome_of(
            success_value(platform),
            os_error,
        ) == Ok::<(), SignalError>(())),
{
}

/// Where sending a signal to the identifier `pid` comes to a call, it is
/// the one call for that kind and that identifier: aimed at `pid` and at
/// nothing else, by the mechanism of the platform, with the code of the
/// kind asked for. It is never the call of the other kind, and never
/// signal 9, the kill that cannot be caught.
pub proof fn law_delivery_is_exact(
    pid: u32,
    platform: Platform,
    kind: SignalKind,
    other: SignalKind,
    call: Delivery,
)
    requires
        resolved(Ok(Some(pid)), platform, kind) == Ok::<Delivery, SignalError>(call),
        other != kind,
    ensures
        is_signalable(platform, pid),
        call.target() == pid,
        call.target() > 0,
        platform == Platform::Posix ==> call == (
            Delivery::Kill { pid: pid as i32, signal: kind.posix_signal() }
        ),
        platform == Platform::Console ==> call == (
            Delivery::ConsoleCtrlEvent { event: kind.console_event(), process_group: pid }
        ),
        call is Kill ==> call.code() != 9,
        resolved(Ok(Some(pid)), platform, other) != Ok::<Delivery, SignalError>(call),
{
}

/// A call is planned for a number exactly where the number names one
/// process on the platform. Zero is never signalled, on any platform, and
/// `kill` is never handed a target that is zero or negative: no signal goes
/// to a process group of the caller's, or to every process at once. What is
/// refused is refused as an invalid identifier, unless the platform has no
/// mechanism at all.
pub proof fn law_only_identifiers_are_signalled(platform: Platform, kind: SignalKind, pid: u32)
    ensures
        delivery_for(platform, kind, pid) is Ok <==> is_signalable(platform, pid),
        !is_signalable(platform, 0),
        delivery_for(platform, kind, pid) matches Ok(call) ==> call.target() == pid && pid > 0,
        platform.is_supported() && !is_signalable(platform, pid) ==> delivery_for(
            platform,
            kind,
            pid,
        ) == Err::<Delivery, SignalError>(SignalError::InvalidIdentifier { pid }),
{
}

/// Whatever an identifier lookup gave, a call that comes of it is of the
/// kind asked for, uses the mechanism of the platform, and is aimed at one
/// process.
pub proof fn law_planned_call_is_as_asked(
    r: Result<Delivery, SignalError>,
    platform: Platform,
    kind: SignalKind,
)
    requires
        follows_lookup(r, platform, kind),
    ensures
        r matches Ok(call) ==> platform.is_supported() && call.target() > 0 && (exists|pid: u32|
            delivery_for(platform, kind, pid) == Ok::<Delivery, SignalError>(call)
        ),
        r matches Ok(Delivery::Kill { signal, .. }) ==> platform == Platform::Posix && signal
            == kind.posix_signal(),
        r matches Ok(Delivery::ConsoleCtrlEvent { event, .. }) ==> platform == Platform::Console
            && event == kind.console_event(),
{
    let found = choose|found: Result<Option<u32>, SignalError>|
        valid_lookup(found) && r == #[trigger] resolved(found, platform, kind);
    match found {
        Ok(Some(pid)) => {
            assert(r == delivery_for(platform, kind, pid));
        },
        _ => {},
    }
}

/// The two kinds of signal never come to the same call.
pub proof fn law_kinds_are_told_apart(platform: Platform, pid: u32)
    requires
        is_signalable(platform, pid),
    ensures
        delivery_for(platform, SignalKind::Interrupt, pid) != delivery_for(
            platform,
            SignalKind::Terminate,
            pid,
        ),
{
}

/// A platform without a signalling mechanism never yields a call: a handle
/// with an identifier is told that signals are unsupported, and any other
/// handle is refused as on every platform.
pub proof fn law_unsupported_platform_fails(
    found: Result<Option<u32>, SignalError>,
    kind: SignalKind,
)
    ensures
        resolved(found, Platform::Unsupported, kind) is Err,
        found is Ok && !is_complete(found) ==> resolved(found, Platform::Unsupported, kind)
            == Err::<Delivery, SignalError>(SignalError::Unsupported),
{
}

/// A failed delivery keeps the code of the operating system, and only a
/// failed delivery is an error.
pub proof fn law_delivery_failure_keeps_the_code(call: Delivery, returned: i32, os_error: i32)
    ensures
        call.outcome_of(returned, os_error) is Err <==> !call.succeeded(returned),
        !call.succeeded(returned) ==> call.outcome_of(returned, os_error)
            == Err::<(), SignalError>(SignalError::Delivery { os_error }),
{
}

/// Preparing a configuration is settled by the first time: the flags that
/// the process was created with are those that a configuration prepared
/// again, after the spawn, still holds. Only where console control events
/// are used are the flags touched, and there they name the new process
/// group.
pub proof fn law_configuration_is_settled_before_spawn(platform: Platform, flags: u32)
    ensures
        configured_flags(platform, configured_flags(platform, flags)) == configured_flags(
            platform,
            flags,
        ),
        platform != Platform::Console ==> configured_flags(platform, flags) == flags,
        platform == Platform::Console ==> configured_flags(platform, flags)
            == CREATE_NEW_PROCESS_GROUP,
{
}

} // verus!
