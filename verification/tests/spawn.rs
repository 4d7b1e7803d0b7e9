use child_interrupt::{
    adopt, configure_for_signaling, set_creation_flags, spawn_interruptible, HandleState,
    Platform, ProcessConfig, CREATE_NEW_PROCESS_GROUP,
};

#[test]
fn new_process_group_flag() {
    assert_eq!(CREATE_NEW_PROCESS_GROUP, 0x200);
    assert_eq!(
        CREATE_NEW_PROCESS_GROUP,
        windows_sys::Win32::System::Threading::CREATE_NEW_PROCESS_GROUP
    );
}

#[test]
fn set_creation_flags_replaces_the_flags() {
    let mut config = ProcessConfig::new(0);
    set_creation_flags(&mut config);
    assert_eq!(config.creation_flags(), 0x200);
    let mut config = ProcessConfig::new(0x0800_0010);
    set_creation_flags(&mut config);
    assert_eq!(config.creation_flags(), 0x200);
}

#[test]
fn configure_on_console_makes_a_new_group() {
    let mut config = ProcessConfig::new(0);
    configure_for_signaling(Platform::Console, &mut config);
    assert_eq!(config.creation_flags(), 0x200);
    configure_for_signaling(Platform::Console, &mut config);
    assert_eq!(config.creation_flags(), 0x200);
}

#[test]
fn configure_elsewhere_changes_nothing() {
    let mut config = ProcessConfig::new(0);
    configure_for_signaling(Platform::Posix, &mut config);
    assert_eq!(config.creation_flags(), 0);
    let mut config = ProcessConfig::new(0x10);
    configure_for_signaling(Platform::Posix, &mut config);
    assert_eq!(config.creation_flags(), 0x10);
    configure_for_signaling(Platform::Unsupported, &mut config);
    assert_eq!(config.creation_flags(), 0x10);
}

#[test]
fn spawn_interruptible_returns_the_prepared_flags() {
    let mut config = ProcessConfig::new(0x10);
    assert_eq!(spawn_interruptible(Platform::Posix, &mut config), 0x10);
    assert_eq!(config.creation_flags(), 0x10);
    assert_eq!(spawn_interruptible(Platform::Console, &mut config), 0x200);
    assert_eq!(config.creation_flags(), 0x200);
    assert_eq!(spawn_interruptible(Platform::Console, &mut config), 0x200);
    assert_eq!(config.creation_flags(), 0x200);
}

#[test]
fn adopt_wraps_what_the_host_spawned() {
    let answer: Result<(&str, u32), String> = Ok(("host handle", 4321));
    let (host, child) = adopt(answer).unwrap();
    assert_eq!(host, "host handle");
    assert_eq!(child.state(), HandleState::Running { raw_id: 4321 });
}

#[test]
fn adopt_passes_a_launch_failure_on() {
    let answer: Result<((), u32), String> = Err(String::from("No such file or directory"));
    match adopt(answer) {
        Ok(_) => panic!("a failed launch gave a handle"),
        Err(e) => assert_eq!(e, "No such file or directory"),
    }
}
