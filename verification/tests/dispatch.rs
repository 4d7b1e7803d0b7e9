use child_interrupt::{
    dispatch, generate_event, interrupt, send_signal, terminate, try_generate_event,
    try_send_signal, Delivery, Platform, SignalError, SignalKind, MAX_POSIX_PID,
};

#[test]
fn interrupt_on_posix_is_sigint() {
    assert_eq!(
        interrupt(Platform::Posix, 4321),
        Ok(Delivery::Kill { pid: 4321, signal: 2 })
    );
    assert_eq!(
        interrupt(Platform::Posix, 4321),
        Ok(Delivery::Kill { pid: 4321, signal: libc::SIGINT })
    );
}

#[test]
fn terminate_on_posix_is_sigterm() {
    assert_eq!(
        terminate(Platform::Posix, 4321),
        Ok(Delivery::Kill { pid: 4321, signal: 15 })
    );
    assert_eq!(
        terminate(Platform::Posix, 4321),
        Ok(Delivery::Kill { pid: 4321, signal: libc::SIGTERM })
    );
}

#[test]
fn interrupt_on_console_is_ctrl_c() {
    assert_eq!(
        interrupt(Platform::Console, 4321),
        Ok(Delivery::ConsoleCtrlEvent { event: 0, process_group: 4321 })
    );
    assert_eq!(
        interrupt(Platform::Console, 4321),
        Ok(Delivery::ConsoleCtrlEvent {
            event: windows_sys::Win32::System::Console::CTRL_C_EVENT,
            process_group: 4321,
        })
    );
}

#[test]
fn terminate_on_console_is_ctrl_break() {
    assert_eq!(
        terminate(Platform::Console, 4321),
        Ok(Delivery::ConsoleCtrlEvent { event: 1, process_group: 4321 })
    );
    assert_eq!(
        terminate(Platform::Console, 4321),
        Ok(Delivery::ConsoleCtrlEvent {
            event: windows_sys::Win32::System::Console::CTRL_BREAK_EVENT,
            process_group: 4321,
        })
    );
}

#[test]
fn unsupported_platform_fails_loudly() {
    assert_eq!(interrupt(Platform::Unsupported, 4321), Err(SignalError::Unsupported));
    assert_eq!(terminate(Platform::Unsupported, 4321), Err(SignalError::Unsupported));
    assert_eq!(
        dispatch(Platform::Unsupported, SignalKind::Interrupt, 1),
        Err(SignalError::Unsupported)
    );
    assert_eq!(interrupt(Platform::Unsupported, 0), Err(SignalError::Unsupported));
    assert_eq!(terminate(Platform::Unsupported, u32::MAX), Err(SignalError::Unsupported));
}

#[test]
fn dispatch_picks_by_kind() {
    for platform in [Platform::Posix, Platform::Console, Platform::Unsupported] {
        assert_eq!(dispatch(platform, SignalKind::Interrupt, 99), interrupt(platform, 99));
        assert_eq!(dispatch(platform, SignalKind::Terminate, 99), terminate(platform, 99));
    }
    assert_ne!(
        dispatch(Platform::Posix, SignalKind::Interrupt, 99),
        dispatch(Platform::Posix, SignalKind::Terminate, 99)
    );
    assert_ne!(
        dispatch(Platform::Console, SignalKind::Interrupt, 99),
        dispatch(Platform::Console, SignalKind::Terminate, 99)
    );
}

#[test]
fn send_signal_keeps_signal_and_pid() {
    assert_eq!(send_signal(1, 9), Delivery::Kill { pid: 1, signal: 9 });
    assert_eq!(send_signal(4321, 2), Delivery::Kill { pid: 4321, signal: 2 });
    assert_eq!(
        send_signal(0x7fff_ffff, 2),
        Delivery::Kill { pid: i32::MAX, signal: 2 }
    );
}

#[test]
fn generate_event_targets_the_group_of_the_pid() {
    assert_eq!(
        generate_event(77, 1),
        Delivery::ConsoleCtrlEvent { event: 1, process_group: 77 }
    );
    assert_eq!(
        generate_event(u32::MAX, 0),
        Delivery::ConsoleCtrlEvent { event: 0, process_group: u32::MAX }
    );
}

#[test]
fn largest_posix_pid() {
    assert_eq!(MAX_POSIX_PID, 2147483647);
    assert_eq!(MAX_POSIX_PID, i32::MAX as u32);
    assert_eq!(
        try_send_signal(MAX_POSIX_PID, 15),
        Ok(Delivery::Kill { pid: i32::MAX, signal: 15 })
    );
    assert_eq!(
        try_send_signal(MAX_POSIX_PID + 1, 15),
        Err(SignalError::InvalidIdentifier { pid: 0x8000_0000 })
    );
}

#[test]
fn try_send_signal_refuses_what_names_no_process() {
    assert_eq!(try_send_signal(1, 2), Ok(Delivery::Kill { pid: 1, signal: 2 }));
    assert_eq!(try_send_signal(0, 2), Err(SignalError::InvalidIdentifier { pid: 0 }));
    assert_eq!(
        try_send_signal(u32::MAX, 2),
        Err(SignalError::InvalidIdentifier { pid: u32::MAX })
    );
}

#[test]
fn try_generate_event_refuses_zero() {
    assert_eq!(
        try_generate_event(1, 0),
        Ok(Delivery::ConsoleCtrlEvent { event: 0, process_group: 1 })
    );
    assert_eq!(
        try_generate_event(u32::MAX, 1),
        Ok(Delivery::ConsoleCtrlEvent { event: 1, process_group: u32::MAX })
    );
    assert_eq!(try_generate_event(0, 1), Err(SignalError::InvalidIdentifier { pid: 0 }));
}

#[test]
fn no_signal_for_the_callers_own_group() {
    for kind in [SignalKind::Interrupt, SignalKind::Terminate] {
        assert_eq!(
            dispatch(Platform::Posix, kind, 0),
            Err(SignalError::InvalidIdentifier { pid: 0 })
        );
        assert_eq!(
            dispatch(Platform::Console, kind, 0),
            Err(SignalError::InvalidIdentifier { pid: 0 })
        );
    }
    assert_eq!(interrupt(Platform::Posix, 0), Err(SignalError::InvalidIdentifier { pid: 0 }));
    assert_eq!(terminate(Platform::Console, 0), Err(SignalError::InvalidIdentifier { pid: 0 }));
}

#[test]
fn no_signal_for_a_negative_target() {
    for pid in [0x8000_0000, 0x8000_0001, 0xffff_fffe, u32::MAX] {
        assert_eq!(
            interrupt(Platform::Posix, pid),
            Err(SignalError::InvalidIdentifier { pid })
        );
        assert_eq!(
            terminate(Platform::Posix, pid),
            Err(SignalError::InvalidIdentifier { pid })
        );
        assert_eq!(
            interrupt(Platform::Console, pid),
            Ok(Delivery::ConsoleCtrlEvent { event: 0, process_group: pid })
        );
    }
}

#[test]
fn kill_outcome() {
    let call = Delivery::Kill { pid: 10, signal: 2 };
    assert_eq!(call.outcome(0, 0), Ok(()));
    assert_eq!(call.outcome(0, 3), Ok(()));
    assert_eq!(call.outcome(-1, 3), Err(SignalError::Delivery { os_error: 3 }));
    assert_eq!(call.outcome(-1, 1), Err(SignalError::Delivery { os_error: 1 }));
    assert_eq!(call.outcome(1, 22), Err(SignalError::Delivery { os_error: 22 }));
}

#[test]
fn console_event_outcome() {
    let call = Delivery::ConsoleCtrlEvent { event: 0, process_group: 10 };
    assert_eq!(call.outcome(1, 0), Ok(()));
    assert_eq!(call.outcome(-1, 0), Ok(()));
    assert_eq!(call.outcome(0, 87), Err(SignalError::Delivery { os_error: 87 }));
    assert_eq!(call.outcome(0, 6), Err(SignalError::Delivery { os_error: 6 }));
}

#[test]
fn error_messages() {
    assert_eq!(
        SignalError::AlreadyComplete.message(),
        "Process is complete or has no pid"
    );
    assert_eq!(
        SignalError::Unsupported.message(),
        "Signals are not implemented for this platform"
    );
    assert_eq!(
        SignalError::Delivery { os_error: 3 }.message(),
        "The operating system did not deliver the signal"
    );
    assert_eq!(
        SignalError::LivenessCheck { os_error: 10 }.message(),
        "Could not determine whether the process is running"
    );
    assert_eq!(
        SignalError::InvalidIdentifier { pid: 0 }.message(),
        "The identifier does not name a process"
    );
}

#[test]
fn error_codes() {
    assert_eq!(SignalError::AlreadyComplete.os_error(), None);
    assert_eq!(SignalError::Unsupported.os_error(), None);
    assert_eq!(SignalError::InvalidIdentifier { pid: 0 }.os_error(), None);
    assert_eq!(SignalError::Delivery { os_error: 3 }.os_error(), Some(3));
    assert_eq!(SignalError::LivenessCheck { os_error: 10 }.os_error(), Some(10));
}
