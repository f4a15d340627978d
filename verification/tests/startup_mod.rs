use mvp_game::{BridgeError, Commands, Handle, Mutation, Outcome, Phase, RefMutMutex, StartupMod};

#[test]
fn new_instance_is_idle_with_no_handle() {
    let startup_mod = StartupMod::new();
    assert_eq!(startup_mod.phase(), Phase::Idle);
    assert!(startup_mod.commands_table().is_empty());
}

#[test]
fn lifecycle_passes_through_all_four_phases() {
    let mut startup_mod = StartupMod::new();
    let mut slot = RefMutMutex::new();
    assert_eq!(startup_mod.phase(), Phase::Idle);

    let handle = startup_mod.allocate_handle().expect("numbers are left");
    assert_eq!(handle, Handle::new_own(0));
    assert_eq!(startup_mod.phase(), Phase::HandleAllocated(handle));
    assert!(startup_mod.commands_table().contains(handle));
    assert!(!slot.is_open());

    let passed = startup_mod.open_window(&mut slot, Commands::new());
    assert_eq!(passed, handle);
    assert_eq!(startup_mod.phase(), Phase::WindowOpen(handle));
    assert!(slot.is_open());

    let (report, commands) = startup_mod.complete(&mut slot, Ok("done".to_string()));
    assert_eq!(report, Ok("done".to_string()));
    assert_eq!(startup_mod.phase(), Phase::Completed(Outcome::Succeeded));
    assert!(startup_mod.commands_table().is_empty());
    assert!(!slot.is_open());
    assert!(commands.expect("a window was open").is_empty());
}

#[test]
fn spawn_stuff_before_the_window_opens_reports_no_active_window() {
    let mut startup_mod = StartupMod::new();
    let mut slot = RefMutMutex::new();
    let handle = startup_mod.allocate_handle().expect("numbers are left");
    assert_eq!(startup_mod.spawn_stuff(&mut slot, handle), Err(BridgeError::NoActiveWindow));
    assert!(!slot.is_open());
}

#[test]
fn spawn_stuff_with_an_unknown_handle_records_nothing() {
    let mut startup_mod = StartupMod::new();
    let mut slot = RefMutMutex::new();
    let _ = startup_mod.allocate_handle().expect("numbers are left");
    let _ = startup_mod.open_window(&mut slot, Commands::new());
    assert_eq!(
        startup_mod.spawn_stuff(&mut slot, Handle::new_own(1)),
        Err(BridgeError::UnknownHandle)
    );
    assert_eq!(
        startup_mod.spawn_stuff(&mut slot, Handle::new_own(u32::MAX)),
        Err(BridgeError::UnknownHandle)
    );
    let (_, commands) = startup_mod.complete(&mut slot, Ok(String::new()));
    assert!(commands.expect("a window was open").is_empty());
}

#[test]
fn unknown_handle_comes_before_no_active_window() {
    let startup_mod = StartupMod::new();
    let mut slot = RefMutMutex::new();
    assert_eq!(
        startup_mod.spawn_stuff(&mut slot, Handle::new_own(0)),
        Err(BridgeError::UnknownHandle)
    );
}

#[test]
fn spawn_stuff_through_the_live_handle_records_in_order() {
    let mut startup_mod = StartupMod::new();
    let mut slot = RefMutMutex::new();
    let mut lent = Commands::new();
    lent.spawn_empty();
    let _ = startup_mod.allocate_handle().expect("numbers are left");
    let handle = startup_mod.open_window(&mut slot, lent);
    assert_eq!(startup_mod.spawn_stuff(&mut slot, handle), Ok(()));
    assert_eq!(startup_mod.spawn_stuff(&mut slot, handle), Ok(()));
    let (_, commands) = startup_mod.complete(&mut slot, Ok(String::new()));
    let commands = commands.expect("a window was open");
    assert_eq!(
        commands.mutations(),
        &vec![Mutation::SpawnEmpty, Mutation::SpawnEmpty, Mutation::SpawnEmpty]
    );
}

#[test]
fn drop_releases_the_handle() {
    let mut startup_mod = StartupMod::new();
    let mut slot = RefMutMutex::new();
    let _ = startup_mod.allocate_handle().expect("numbers are left");
    let handle = startup_mod.open_window(&mut slot, Commands::new());
    assert_eq!(startup_mod.drop(handle), Ok(()));
    assert!(startup_mod.commands_table().is_empty());
    assert_eq!(startup_mod.phase(), Phase::WindowOpen(handle));
    assert_eq!(startup_mod.spawn_stuff(&mut slot, handle), Err(BridgeError::UnknownHandle));
    assert_eq!(startup_mod.drop(handle), Err(BridgeError::UnknownHandle));
}

#[test]
fn drop_of_an_unknown_handle_changes_nothing() {
    let mut startup_mod = StartupMod::new();
    let handle = startup_mod.allocate_handle().expect("numbers are left");
    assert_eq!(startup_mod.drop(Handle::new_own(5)), Err(BridgeError::UnknownHandle));
    assert!(startup_mod.commands_table().contains(handle));
    assert_eq!(startup_mod.commands_table().len(), 1);
}

#[test]
fn complete_after_a_trap_closes_the_window_and_releases_the_handle() {
    let mut startup_mod = StartupMod::new();
    let mut slot = RefMutMutex::new();
    let _ = startup_mod.allocate_handle().expect("numbers are left");
    let handle = startup_mod.open_window(&mut slot, Commands::new());
    let (report, commands) = startup_mod.complete(&mut slot, Err("unreachable".to_string()));
    assert_eq!(report, Err(BridgeError::SandboxCallFailed));
    assert_eq!(startup_mod.phase(), Phase::Completed(Outcome::Failed));
    assert!(!slot.is_open());
    assert!(startup_mod.commands_table().is_empty());
    assert!(commands.expect("a window was open").is_empty());
    assert_eq!(startup_mod.spawn_stuff(&mut slot, handle), Err(BridgeError::UnknownHandle));
}

#[test]
fn complete_after_the_extension_dropped_its_handle() {
    let mut startup_mod = StartupMod::new();
    let mut slot = RefMutMutex::new();
    let _ = startup_mod.allocate_handle().expect("numbers are left");
    let handle = startup_mod.open_window(&mut slot, Commands::new());
    assert_eq!(startup_mod.spawn_stuff(&mut slot, handle), Ok(()));
    assert_eq!(startup_mod.drop(handle), Ok(()));
    let (report, commands) = startup_mod.complete(&mut slot, Ok("bye".to_string()));
    assert_eq!(report, Ok("bye".to_string()));
    assert!(startup_mod.commands_table().is_empty());
    assert_eq!(commands.expect("a window was open").len(), 1);
}

#[test]
fn reset_makes_a_completed_instance_idle_again() {
    let mut startup_mod = StartupMod::new();
    let mut slot = RefMutMutex::new();
    let _ = startup_mod.allocate_handle().expect("numbers are left");
    let _ = startup_mod.open_window(&mut slot, Commands::new());
    let _ = startup_mod.complete(&mut slot, Ok(String::new()));
    startup_mod.reset();
    assert_eq!(startup_mod.phase(), Phase::Idle);
    let handle = startup_mod.allocate_handle().expect("numbers are left");
    assert_eq!(handle, Handle::new_own(1));
}

#[test]
fn instance_is_valid_in_every_phase() {
    let mut startup_mod = StartupMod::new();
    let mut slot = RefMutMutex::new();
    assert!(startup_mod.is_valid());
    let _ = startup_mod.allocate_handle().expect("numbers are left");
    assert!(startup_mod.is_valid());
    let handle = startup_mod.open_window(&mut slot, Commands::new());
    assert!(startup_mod.is_valid());
    assert_eq!(startup_mod.drop(handle), Ok(()));
    assert!(startup_mod.is_valid());
    let _ = startup_mod.complete(&mut slot, Ok(String::new()));
    assert!(startup_mod.is_valid());
    startup_mod.reset();
    assert!(startup_mod.is_valid());
}

#[test]
fn a_handle_of_an_earlier_invocation_is_refused_in_a_later_one() {
    let mut startup_mod = StartupMod::new();
    let mut slot = RefMutMutex::new();
    let _ = startup_mod.allocate_handle().expect("numbers are left");
    let first = startup_mod.open_window(&mut slot, Commands::new());
    let (_, commands) = startup_mod.complete(&mut slot, Ok(String::new()));
    startup_mod.reset();
    let _ = startup_mod.allocate_handle().expect("numbers are left");
    let second = startup_mod.open_window(&mut slot, commands.expect("a window was open"));
    assert_ne!(first, second);
    assert_eq!(startup_mod.spawn_stuff(&mut slot, first), Err(BridgeError::UnknownHandle));
    assert_eq!(startup_mod.drop(first), Err(BridgeError::UnknownHandle));
    assert_eq!(startup_mod.spawn_stuff(&mut slot, second), Ok(()));
    let (_, commands) = startup_mod.complete(&mut slot, Ok(String::new()));
    assert_eq!(commands.expect("a window was open").len(), 1);
}

#[test]
fn an_instance_without_a_number_left_completes_without_a_handle() {
    let mut startup_mod = StartupMod::new();
    let mut slot = RefMutMutex::new();
    startup_mod.retire_handles_below(u32::MAX);
    assert!(startup_mod.is_valid());
    let last = startup_mod.allocate_handle();
    assert_eq!(last, Some(Handle::new_own(u32::MAX)));
    let _ = startup_mod.open_window(&mut slot, Commands::new());
    let _ = startup_mod.complete(&mut slot, Ok(String::new()));
    startup_mod.reset();
    assert_eq!(startup_mod.allocate_handle(), None);
    assert_eq!(startup_mod.phase(), Phase::Completed(Outcome::OutOfHandles));
    assert!(startup_mod.commands_table().is_empty());
    assert!(startup_mod.is_valid());
    assert!(!slot.is_open());
    startup_mod.reset();
    assert_eq!(startup_mod.allocate_handle(), None);
}
