use mvp_game::{BridgeError, Commands, Handle, Mutation};

#[test]
fn new_commands_are_empty() {
    let commands = Commands::new();
    assert!(commands.is_empty());
    assert_eq!(commands.len(), 0);
    assert_eq!(commands.get(0), None);
    assert!(commands.mutations().is_empty());
}

#[test]
fn spawn_empty_appends_one_mutation() {
    let mut commands = Commands::new();
    commands.spawn_empty();
    assert!(!commands.is_empty());
    assert_eq!(commands.len(), 1);
    assert_eq!(commands.get(0), Some(Mutation::SpawnEmpty));
    assert_eq!(commands.get(1), None);
    commands.spawn_empty();
    assert_eq!(commands.len(), 2);
    assert_eq!(commands.get(1), Some(Mutation::SpawnEmpty));
    assert_eq!(commands.get(2), None);
    assert_eq!(commands.get(usize::MAX), None);
    assert_eq!(commands.mutations(), &vec![Mutation::SpawnEmpty, Mutation::SpawnEmpty]);
}

#[test]
fn handle_keeps_its_representation() {
    assert_eq!(Handle::new_own(0).rep(), 0);
    assert_eq!(Handle::new_own(17).rep(), 17);
    assert_eq!(Handle::new_own(u32::MAX).rep(), u32::MAX);
    assert_eq!(Handle::new_own(3), Handle { rep: 3 });
    assert_ne!(Handle::new_own(3), Handle::new_own(4));
}

#[test]
fn errors_describe_themselves() {
    assert_eq!(BridgeError::NoActiveWindow.as_str(), "no active window");
    assert_eq!(BridgeError::UnknownHandle.as_str(), "unknown handle");
    assert_eq!(BridgeError::SandboxCallFailed.as_str(), "sandbox call failed");
}
