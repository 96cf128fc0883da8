use steamos_manager::error::Error;
use steamos_manager::screenreader::{
    keyboard_keys, ActionStep, OrcaManager, ScreenReaderAction, ScreenReaderMode, KEYBOARD_NAME,
};
use steamos_manager::uinput::{EventTime, InputEvent, Key, KeyState, KeyStroke, UInputDevice};

fn down(key: Key) -> KeyStroke {
    KeyStroke { key, state: KeyState::Pressed }
}

fn up(key: Key) -> KeyStroke {
    KeyStroke { key, state: KeyState::Released }
}

fn keys(manager: &OrcaManager, action: ScreenReaderAction) -> Vec<KeyStroke> {
    match manager.trigger_action_step(action) {
        ActionStep::Keys(keys) => keys,
        other => panic!("unexpected step {other:?}"),
    }
}

#[test]
fn test_read_next_word() {
    let manager = OrcaManager::new(true);
    assert_eq!(
        keys(&manager, ScreenReaderAction::ReadNextWord),
        vec![down(Key::LeftCtrl), down(Key::Right), up(Key::Right), up(Key::LeftCtrl)]
    );
}

#[test]
fn test_read_previous_word() {
    let manager = OrcaManager::new(true);
    assert_eq!(
        keys(&manager, ScreenReaderAction::ReadPreviousWord),
        vec![down(Key::LeftCtrl), down(Key::Left), up(Key::Left), up(Key::LeftCtrl)]
    );
}

#[test]
fn test_read_next_item() {
    let manager = OrcaManager::new(true);
    assert_eq!(keys(&manager, ScreenReaderAction::ReadNextItem), vec![down(Key::Down), up(Key::Down)]);
}

#[test]
fn test_read_previous_item() {
    let manager = OrcaManager::new(true);
    assert_eq!(keys(&manager, ScreenReaderAction::ReadPreviousItem), vec![down(Key::Up), up(Key::Up)]);
}

#[test]
fn test_move_to_next_landmark() {
    let manager = OrcaManager::new(true);
    assert_eq!(keys(&manager, ScreenReaderAction::MoveToNextLandmark), vec![down(Key::M), up(Key::M)]);
}

#[test]
fn test_move_to_previous_landmark() {
    let manager = OrcaManager::new(true);
    assert_eq!(
        keys(&manager, ScreenReaderAction::MoveToPreviousLandmark),
        vec![down(Key::LeftShift), down(Key::M), up(Key::M), up(Key::LeftShift)]
    );
}

#[test]
fn test_move_to_next_heading() {
    let manager = OrcaManager::new(true);
    assert_eq!(keys(&manager, ScreenReaderAction::MoveToNextHeading), vec![down(Key::H), up(Key::H)]);
}

#[test]
fn test_move_to_previous_heading() {
    let manager = OrcaManager::new(true);
    assert_eq!(
        keys(&manager, ScreenReaderAction::MoveToPreviousHeading),
        vec![down(Key::LeftShift), down(Key::H), up(Key::H), up(Key::LeftShift)]
    );
}

#[test]
fn test_toggle_mode_to_focus() {
    let mut manager = OrcaManager::new(true);
    manager.set_mode(ScreenReaderMode::Browse);
    assert_eq!(
        keys(&manager, ScreenReaderAction::ToggleMode),
        vec![down(Key::Insert), down(Key::A), up(Key::A), up(Key::Insert)]
    );
    manager.trigger_action(ScreenReaderAction::ToggleMode);
    assert_eq!(manager.mode(), ScreenReaderMode::Focus);
}

#[test]
fn test_toggle_mode_to_browse() {
    let mut manager = OrcaManager::new(true);
    manager.set_mode(ScreenReaderMode::Focus);
    assert_eq!(
        keys(&manager, ScreenReaderAction::ToggleMode),
        vec![down(Key::Insert), down(Key::A), up(Key::A), up(Key::Insert)]
    );
    manager.trigger_action(ScreenReaderAction::ToggleMode);
    assert_eq!(manager.mode(), ScreenReaderMode::Browse);
}

#[test]
fn test_set_mode_to_focus() {
    let mut manager = OrcaManager::new(true);
    manager.set_mode(ScreenReaderMode::Browse);
    assert_eq!(
        manager.set_mode_keys(ScreenReaderMode::Focus),
        vec![down(Key::Insert), down(Key::A), up(Key::A), down(Key::A), up(Key::A), up(Key::Insert)]
    );
    manager.set_mode(ScreenReaderMode::Focus);
    assert_eq!(manager.mode(), ScreenReaderMode::Focus);
}

#[test]
fn test_set_mode_to_browse() {
    let mut manager = OrcaManager::new(true);
    manager.set_mode(ScreenReaderMode::Focus);
    assert_eq!(
        manager.set_mode_keys(ScreenReaderMode::Browse),
        vec![
            down(Key::Insert),
            down(Key::A),
            up(Key::A),
            down(Key::A),
            up(Key::A),
            down(Key::A),
            up(Key::A),
            up(Key::Insert)
        ]
    );
    manager.set_mode(ScreenReaderMode::Browse);
    assert_eq!(manager.mode(), ScreenReaderMode::Browse);
}

#[test]
fn test_set_mode_same() {
    let mut manager = OrcaManager::new(true);
    manager.set_mode(ScreenReaderMode::Browse);
    assert_eq!(manager.set_mode_keys(ScreenReaderMode::Browse), vec![]);
    manager.set_mode(ScreenReaderMode::Focus);
    assert_eq!(manager.set_mode_keys(ScreenReaderMode::Focus), vec![]);
    assert_eq!(manager.mode(), ScreenReaderMode::Focus);
}

#[test]
fn stop_talking_takes_a_signal() {
    let mut manager = OrcaManager::new(true);
    assert!(matches!(manager.trigger_action_step(ScreenReaderAction::StopTalking), ActionStep::Signal));
    manager.trigger_action(ScreenReaderAction::StopTalking);
    manager.trigger_action(ScreenReaderAction::ReadNextWord);
    assert_eq!(manager.mode(), ScreenReaderMode::Browse);
}

#[test]
fn test_enable_disable() {
    let mut manager = OrcaManager::new(true);
    assert!(manager.enabled());
    let steps = manager.set_enabled_steps(false);
    assert!(steps.change_settings);
    assert!(!steps.restart);
    manager.set_enabled(false);
    assert!(!manager.enabled());
    let steps = manager.set_enabled_steps(false);
    assert!(!steps.change_settings);
    assert!(!steps.restart);
    let steps = manager.set_enabled_steps(true);
    assert!(steps.change_settings);
    assert!(steps.restart);
    manager.set_enabled(true);
    let steps = manager.set_enabled_steps(true);
    assert!(!steps.change_settings);
    assert!(steps.restart);
    assert!(!OrcaManager::settings_failure_counts(true));
    assert!(OrcaManager::settings_failure_counts(false));
}

#[test]
fn screen_reader_names_roundtrip() {
    assert_eq!(ScreenReaderMode::Browse.as_u32(), 0);
    assert_eq!(ScreenReaderMode::Focus.as_u32(), 1);
    assert_eq!(ScreenReaderMode::try_from(1).unwrap(), ScreenReaderMode::Focus);
    assert!(ScreenReaderMode::try_from(2).is_err());
    assert_eq!(ScreenReaderMode::from_str("Focus").unwrap(), ScreenReaderMode::Focus);
    assert_eq!(ScreenReaderMode::Browse.to_string(), "browse");
    let actions = [
        (ScreenReaderAction::StopTalking, "stop_talking"),
        (ScreenReaderAction::ReadNextWord, "read_next_word"),
        (ScreenReaderAction::ReadPreviousWord, "read_previous_word"),
        (ScreenReaderAction::ReadNextItem, "read_next_item"),
        (ScreenReaderAction::ReadPreviousItem, "read_previous_item"),
        (ScreenReaderAction::MoveToNextLandmark, "move_to_next_landmark"),
        (ScreenReaderAction::MoveToPreviousLandmark, "move_to_previous_landmark"),
        (ScreenReaderAction::MoveToNextHeading, "move_to_next_heading"),
        (ScreenReaderAction::MoveToPreviousHeading, "move_to_previous_heading"),
        (ScreenReaderAction::ToggleMode, "toggle_mode"),
    ];
    for (number, (action, name)) in actions.iter().enumerate() {
        assert_eq!(action.as_u32(), number as u32);
        assert_eq!(ScreenReaderAction::try_from(number as u32).unwrap(), *action);
        assert_eq!(action.to_string(), *name);
        assert_eq!(ScreenReaderAction::from_str(name).unwrap(), *action);
        assert_eq!(ScreenReaderAction::from_str(&name.to_uppercase()).unwrap(), *action);
    }
    assert!(ScreenReaderAction::try_from(10).is_err());
    assert!(ScreenReaderAction::from_str("sing").is_err());
}

#[test]
fn keyboard_is_opened_once() {
    let mut keyboard = UInputDevice::new();
    keyboard.set_name(String::from(KEYBOARD_NAME)).unwrap();
    assert!(!keyboard.has_key(Key::A));
    assert_eq!(keyboard.key_down(Key::A, None), Err(Error::NotFound));
    keyboard.open(&keyboard_keys()).unwrap();
    assert_eq!(keyboard_keys().len(), 10);
    assert!(keyboard.has_key(Key::A));
    assert!(keyboard.has_key(Key::Up));
    assert_eq!(keyboard.open(&[Key::A]), Err(Error::AlreadyOpen));
    assert!(keyboard.has_key(Key::Up));
    assert_eq!(keyboard.set_name(String::from("other")), Err(Error::AlreadyOpen));
    assert_eq!(KEYBOARD_NAME, "steamos-manager");
}

#[test]
fn keys_become_events() {
    let mut keyboard = UInputDevice::new();
    keyboard.open(&[Key::A, Key::Insert]).unwrap();
    let time = EventTime { seconds: 12, microseconds: 345 };
    assert_eq!(
        keyboard.key_down(Key::A, Some((12, 345))).unwrap(),
        [InputEvent::Key { time, stroke: down(Key::A) }, InputEvent::Synchronize { time }]
    );
    assert_eq!(
        keyboard.key_up(Key::Insert, Some((12, 345))).unwrap(),
        [InputEvent::Key { time, stroke: up(Key::Insert) }, InputEvent::Synchronize { time }]
    );
    assert_eq!(keyboard.key_down(Key::H, Some((12, 345))), Err(Error::NotFound));
    let epoch = EventTime { seconds: 0, microseconds: 0 };
    assert_eq!(UInputDevice::system_time(None), epoch);
    assert_eq!(UInputDevice::system_time(Some((u64::MAX, 5))), epoch);
    assert_eq!(
        UInputDevice::system_time(Some((i64::MAX as u64, 999_999))),
        EventTime { seconds: i64::MAX, microseconds: 999_999 }
    );
    assert_eq!(
        keyboard.send_key_event(Key::A, KeyState::Released, None).unwrap()[1],
        InputEvent::Synchronize { time: epoch }
    );
}
