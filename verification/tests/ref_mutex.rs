use mvp_game::{BridgeError, Commands, Mutation, RefMutMutex};

fn spawn(slot: &mut RefMutMutex) -> Result<(), BridgeError> {
    slot.try_use(|commands: &mut Commands| commands.spawn_empty())
}

#[test]
fn new_slot_is_closed() {
    let slot = RefMutMutex::new();
    assert!(!slot.is_open());
}

#[test]
fn try_use_outside_window_reports_no_active_window() {
    let mut slot = RefMutMutex::new();
    assert_eq!(spawn(&mut slot), Err(BridgeError::NoActiveWindow));
    assert!(!slot.is_open());
}

#[test]
fn try_use_does_not_run_the_closure_outside_a_window() {
    let mut slot = RefMutMutex::new();
    let mut ran = false;
    let result = slot.try_use(|_commands: &mut Commands| {
        ran = true;
        7
    });
    assert_eq!(result, Err(BridgeError::NoActiveWindow));
    assert!(!ran);
}

#[test]
fn try_use_returns_the_closures_result_inside_a_window() {
    let mut slot = RefMutMutex::new();
    slot.open_window(Commands::new());
    let result = slot.try_use(|commands: &mut Commands| {
        commands.spawn_empty();
        commands.len()
    });
    assert_eq!(result, Ok(1));
    assert!(slot.is_open());
}

#[test]
fn try_use_fails_again_after_every_window() {
    let mut slot = RefMutMutex::new();
    let mut commands = Commands::new();
    for round in 0..3 {
        assert_eq!(spawn(&mut slot), Err(BridgeError::NoActiveWindow));
        slot.share(&mut commands, |slot: &mut RefMutMutex| {
            assert_eq!(spawn(slot), Ok(()));
        });
        assert_eq!(spawn(&mut slot), Err(BridgeError::NoActiveWindow));
        assert_eq!(commands.len(), round + 1);
    }
}

#[test]
fn share_clears_the_slot_when_the_body_uses_nothing() {
    let mut slot = RefMutMutex::new();
    let mut commands = Commands::new();
    slot.share(&mut commands, |_slot: &mut RefMutMutex| {});
    assert!(!slot.is_open());
    assert!(commands.is_empty());
}

#[test]
fn share_clears_the_slot_when_the_body_uses_it_once() {
    let mut slot = RefMutMutex::new();
    let mut commands = Commands::new();
    slot.share(&mut commands, |slot: &mut RefMutMutex| {
        assert!(slot.is_open());
        assert_eq!(spawn(slot), Ok(()));
    });
    assert!(!slot.is_open());
    assert_eq!(commands.mutations(), &vec![Mutation::SpawnEmpty]);
}

#[test]
fn share_clears_the_slot_when_the_body_uses_it_many_times() {
    let mut slot = RefMutMutex::new();
    let mut commands = Commands::new();
    slot.share(&mut commands, |slot: &mut RefMutMutex| {
        for _ in 0..100 {
            assert_eq!(spawn(slot), Ok(()));
        }
    });
    assert!(!slot.is_open());
    assert_eq!(commands.len(), 100);
}

#[test]
fn share_clears_the_slot_when_the_body_fails() {
    let mut slot = RefMutMutex::new();
    let mut commands = Commands::new();
    let result: Result<(), String> = slot.share(&mut commands, |slot: &mut RefMutMutex| {
        spawn(slot).map_err(|e| e.as_str().to_string())?;
        Err("entry point trapped".to_string())
    });
    assert_eq!(result, Err("entry point trapped".to_string()));
    assert!(!slot.is_open());
    assert_eq!(commands.mutations(), &vec![Mutation::SpawnEmpty]);
}

#[test]
fn share_returns_the_bodys_result() {
    let mut slot = RefMutMutex::new();
    let mut commands = Commands::new();
    let result = slot.share(&mut commands, |_slot: &mut RefMutMutex| 42);
    assert_eq!(result, 42);
}

#[test]
fn share_keeps_what_was_recorded_before() {
    let mut slot = RefMutMutex::new();
    let mut commands = Commands::new();
    commands.spawn_empty();
    slot.share(&mut commands, |slot: &mut RefMutMutex| {
        assert_eq!(spawn(slot), Ok(()));
        assert_eq!(spawn(slot), Ok(()));
    });
    assert_eq!(commands.len(), 3);
}

#[test]
fn three_spawns_in_one_window_are_recorded_in_order() {
    let mut slot = RefMutMutex::new();
    let mut commands = Commands::new();
    slot.share(&mut commands, |slot: &mut RefMutMutex| {
        assert_eq!(spawn(slot), Ok(()));
        assert_eq!(spawn(slot), Ok(()));
        assert_eq!(spawn(slot), Ok(()));
    });
    assert_eq!(
        commands.mutations(),
        &vec![Mutation::SpawnEmpty, Mutation::SpawnEmpty, Mutation::SpawnEmpty]
    );
}

#[test]
fn uses_see_each_others_mutations_in_call_order() {
    let mut slot = RefMutMutex::new();
    let mut commands = Commands::new();
    let mut seen = Vec::new();
    slot.share(&mut commands, |slot: &mut RefMutMutex| {
        for _ in 0..3 {
            let before = slot.try_use(|commands: &mut Commands| {
                let before = commands.len();
                commands.spawn_empty();
                before
            });
            seen.push(before);
        }
    });
    assert_eq!(seen, vec![Ok(0), Ok(1), Ok(2)]);
    assert_eq!(commands.len(), 3);
}

#[test]
fn open_window_then_close_window_hands_the_queue_back() {
    let mut slot = RefMutMutex::new();
    let mut commands = Commands::new();
    commands.spawn_empty();
    slot.open_window(commands);
    assert!(slot.is_open());
    assert_eq!(spawn(&mut slot), Ok(()));
    let returned = slot.close_window().expect("a window was open");
    assert!(!slot.is_open());
    assert_eq!(returned.mutations(), &vec![Mutation::SpawnEmpty, Mutation::SpawnEmpty]);
}

#[test]
fn close_window_without_a_window_gives_nothing() {
    let mut slot = RefMutMutex::new();
    assert!(slot.close_window().is_none());
    assert!(!slot.is_open());
}

#[test]
fn lock_shows_an_empty_slot_outside_a_window() {
    let mut slot = RefMutMutex::new();
    let guard = slot.lock();
    assert!(guard.inner.is_none());
}

#[test]
fn lock_gives_access_to_the_lent_queue() {
    let mut slot = RefMutMutex::new();
    slot.open_window(Commands::new());
    {
        let guard = slot.lock();
        let commands = guard.inner.as_mut().expect("a window is open");
        commands.spawn_empty();
    }
    let returned = slot.close_window().expect("a window was open");
    assert_eq!(returned.mutations(), &vec![Mutation::SpawnEmpty]);
}
