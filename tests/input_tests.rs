use copper_engine::input::{InputEvent, InputManager, Modifiers};

#[test]
fn new_snapshot_is_empty() {
    let im = InputManager::new();
    assert!(im.pressed_scancodes.is_empty());
    assert_eq!(im.modifiers, Modifiers::none());
    assert!(!im.is_pressed(17));
}

#[test]
fn press_then_release_key() {
    let mut im = InputManager::new();
    im.apply(InputEvent::KeyPressed(17));
    im.apply(InputEvent::KeyPressed(30));
    assert!(im.is_pressed(17));
    assert!(im.is_pressed(30));
    assert_eq!(im.pressed_scancodes.len(), 2);
    im.apply(InputEvent::KeyReleased(17));
    assert!(!im.is_pressed(17));
    assert!(im.is_pressed(30));
}

#[test]
fn pressing_twice_keeps_one_entry() {
    let mut im = InputManager::new();
    im.apply(InputEvent::KeyPressed(57));
    im.apply(InputEvent::KeyPressed(57));
    assert_eq!(im.pressed_scancodes.len(), 1);
}

#[test]
fn releasing_unpressed_key_changes_nothing() {
    let mut im = InputManager::new();
    im.apply(InputEvent::KeyPressed(42));
    im.apply(InputEvent::KeyReleased(31));
    assert!(im.is_pressed(42));
    assert_eq!(im.pressed_scancodes.len(), 1);
}

#[test]
fn modifier_change_replaces_flags_and_keeps_keys() {
    let mut im = InputManager::new();
    im.apply(InputEvent::KeyPressed(32));
    let m = Modifiers { shift: true, ctrl: false, alt: true, logo: false };
    im.apply(InputEvent::ModifiersChanged(m));
    assert_eq!(im.modifiers, m);
    assert!(im.is_pressed(32));
    im.apply(InputEvent::ModifiersChanged(Modifiers::none()));
    assert_eq!(im.modifiers, Modifiers::none());
}
