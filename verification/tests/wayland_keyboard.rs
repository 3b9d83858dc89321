use ui_events_adapters::keyboard::{Code, Key, KeyState, Location, Modifiers, NamedKey};
use ui_events_adapters::wayland::keyboard::{
    KeyboardEventReducer, KeyboardInput, RepeatInfo, WlKeyState,
};

const KEY_A: u32 = 30;
const KEY_LEFTCTRL: u32 = 29;
const KEY_LEFTSHIFT: u32 = 42;
const KEY_RIGHTSHIFT: u32 = 54;

fn key_event(scancode: u32, state: WlKeyState) -> KeyboardInput {
    KeyboardInput::Key { key: scancode, state }
}

#[test]
fn key_press_maps_physical_code_and_down_state() {
    let mut reducer = KeyboardEventReducer::default();
    let event = reducer
        .reduce(&key_event(KEY_A, WlKeyState::Pressed))
        .expect("a key press should produce an event");

    assert_eq!(event.state, KeyState::Down);
    assert_eq!(event.code, Code::KeyA);
    assert_eq!(event.key, Key::Named(NamedKey::Unidentified));
    assert_eq!(event.location, Location::Standard);
    assert!(!event.repeat);
    assert!(!event.is_composing);
    assert_eq!(event.modifiers, Modifiers::empty());
}

#[test]
fn key_release_maps_up_state() {
    let mut reducer = KeyboardEventReducer::default();
    let _ = reducer.reduce(&key_event(KEY_A, WlKeyState::Pressed));
    let event = reducer
        .reduce(&key_event(KEY_A, WlKeyState::Released))
        .expect("a key release should produce an event");

    assert_eq!(event.state, KeyState::Up);
    assert_eq!(event.code, Code::KeyA);
}

#[test]
fn repeated_key_state_sets_repeat_flag() {
    let mut reducer = KeyboardEventReducer::default();
    let _ = reducer.reduce(&key_event(KEY_A, WlKeyState::Pressed));
    let event = reducer
        .reduce(&key_event(KEY_A, WlKeyState::Repeated))
        .expect("a repeated key should produce an event");

    assert_eq!(event.state, KeyState::Down);
    assert!(event.repeat);
}

#[test]
fn modifiers_track_physical_modifier_keys() {
    let mut reducer = KeyboardEventReducer::default();

    let ctrl_down = reducer
        .reduce(&key_event(KEY_LEFTCTRL, WlKeyState::Pressed))
        .expect("control down should produce an event");
    assert!(ctrl_down.modifiers.ctrl());
    assert_eq!(ctrl_down.code, Code::ControlLeft);

    let a_down = reducer
        .reduce(&key_event(KEY_A, WlKeyState::Pressed))
        .expect("a down should produce an event");
    assert!(a_down.modifiers.ctrl());

    let ctrl_up = reducer
        .reduce(&key_event(KEY_LEFTCTRL, WlKeyState::Released))
        .expect("control up should produce an event");
    assert!(!ctrl_up.modifiers.ctrl());
}

#[test]
fn left_and_right_modifier_stay_active_until_both_released() {
    let mut reducer = KeyboardEventReducer::default();
    let _ = reducer.reduce(&key_event(KEY_LEFTSHIFT, WlKeyState::Pressed));
    let _ = reducer.reduce(&key_event(KEY_RIGHTSHIFT, WlKeyState::Pressed));

    let left_up = reducer
        .reduce(&key_event(KEY_LEFTSHIFT, WlKeyState::Released))
        .expect("left shift up should produce an event");
    assert!(left_up.modifiers.shift());

    let right_up = reducer
        .reduce(&key_event(KEY_RIGHTSHIFT, WlKeyState::Released))
        .expect("right shift up should produce an event");
    assert!(!right_up.modifiers.shift());
}

#[test]
fn enter_seeds_modifier_state_from_pressed_keys() {
    let mut reducer = KeyboardEventReducer::default();
    reducer.enter(&KEY_LEFTCTRL.to_le_bytes());

    assert!(reducer.modifiers().ctrl());
    let a_down = reducer
        .reduce(&key_event(KEY_A, WlKeyState::Pressed))
        .expect("a down should produce an event");
    assert!(a_down.modifiers.ctrl());
}

#[test]
fn leave_clears_modifier_state() {
    let mut reducer = KeyboardEventReducer::default();
    reducer.enter(&KEY_LEFTCTRL.to_le_bytes());
    reducer.leave();

    assert_eq!(reducer.modifiers(), Modifiers::empty());
}

#[test]
fn repeat_info_is_exposed_and_emits_nothing() {
    let mut reducer = KeyboardEventReducer::default();
    assert_eq!(reducer.repeat_info(), None);

    let emitted = reducer.reduce(&KeyboardInput::RepeatInfo { rate: 25, delay: 600 });

    assert_eq!(emitted, None);
    assert_eq!(reducer.repeat_info(), Some(RepeatInfo { rate: 25, delay: 600 }));
}

#[test]
fn opaque_modifiers_event_is_ignored() {
    let mut reducer = KeyboardEventReducer::default();
    let emitted = reducer.reduce(&KeyboardInput::Modifiers);

    assert_eq!(emitted, None);
    assert_eq!(reducer.modifiers(), Modifiers::empty());
}

#[test]
fn unmapped_scancode_is_unidentified() {
    let mut reducer = KeyboardEventReducer::default();
    let event = reducer
        .reduce(&key_event(0, WlKeyState::Pressed))
        .expect("an unmapped key should still produce an event");
    assert_eq!(event.code, Code::Unidentified);
}

#[test]
fn unknown_key_state_emits_nothing_and_changes_nothing() {
    let mut reducer = KeyboardEventReducer::default();
    let _ = reducer.reduce(&key_event(KEY_LEFTCTRL, WlKeyState::Pressed));
    assert_eq!(reducer.reduce(&key_event(KEY_LEFTCTRL, WlKeyState::Unknown(7))), None);
    assert!(reducer.modifiers().ctrl());
}

#[test]
fn enter_ignores_trailing_bytes_and_duplicates() {
    let mut reducer = KeyboardEventReducer::default();
    let mut keys = Vec::new();
    keys.extend_from_slice(&KEY_LEFTSHIFT.to_le_bytes());
    keys.extend_from_slice(&KEY_LEFTSHIFT.to_le_bytes());
    keys.extend_from_slice(&[KEY_LEFTCTRL as u8, 0]);
    let emitted = reducer.reduce(&KeyboardInput::Enter { keys });
    assert_eq!(emitted, None);
    let mods = reducer.modifiers();
    assert!(mods.shift());
    assert!(!mods.ctrl());
    // One release drops the key, since it was recorded once.
    let up = reducer.reduce(&key_event(KEY_LEFTSHIFT, WlKeyState::Released)).unwrap();
    assert!(!up.modifiers.shift());
}

#[test]
fn press_then_release_restores_held_modifiers() {
    let mut reducer = KeyboardEventReducer::default();
    let _ = reducer.reduce(&key_event(KEY_RIGHTSHIFT, WlKeyState::Pressed));
    let before = reducer.modifiers();
    let _ = reducer.reduce(&key_event(KEY_LEFTCTRL, WlKeyState::Pressed));
    let _ = reducer.reduce(&key_event(KEY_LEFTCTRL, WlKeyState::Released));
    assert_eq!(reducer.modifiers(), before);
}

#[test]
fn leave_then_new_key_has_no_modifiers() {
    let mut reducer = KeyboardEventReducer::default();
    let _ = reducer.reduce(&key_event(KEY_LEFTCTRL, WlKeyState::Pressed));
    let _ = reducer.reduce(&KeyboardInput::Leave);
    let a = reducer.reduce(&key_event(KEY_A, WlKeyState::Pressed)).unwrap();
    assert_eq!(a.modifiers, Modifiers::empty());
}
