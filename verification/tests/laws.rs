use ui_events_adapters::pointer::{PointerButton, PointerButtons, PointerId, PointerType};
use ui_events_adapters::tap::{TapCounter, TAP_TIMEOUT};
use ui_events_adapters::wayland::keyboard::{KeyboardEventReducer, KeyboardInput, WlKeyState};
use ui_events_adapters::wayland::touch::TouchTracker;
use ui_events_adapters::winit::{
    mouse_input, touch_event_kind, winit_touch_pointer, TouchEventKind, WinitTouchPhase,
};

#[test]
fn double_click_counts_two_then_three() {
    let mut counter: TapCounter<u8> = TapCounter::new();
    let id = Some(PointerId::primary());
    assert_eq!(counter.press(id, 0, 0, &vec![]), 1);
    assert_eq!(counter.release(id, 100), Some(1));
    assert_eq!(counter.press(id, 200, 0, &vec![true]), 2);
    assert_eq!(counter.release(id, 300), Some(2));
    assert_eq!(counter.press(id, 300 + TAP_TIMEOUT - 1, 0, &vec![true]), 3);
}

#[test]
fn press_far_from_every_tap_counts_one() {
    let mut counter: TapCounter<u8> = TapCounter::new();
    let id = Some(PointerId::primary());
    let _ = counter.press(id, 0, 0, &vec![]);
    let _ = counter.release(id, 1);
    assert_eq!(counter.press(id, 2, 0, &vec![false]), 1);
}

#[test]
fn moves_carry_the_count_only_while_down_and_cancel_forgets() {
    let mut counter: TapCounter<u8> = TapCounter::new();
    let id = Some(PointerId::primary());
    let _ = counter.press(id, 0, 0, &vec![]);
    assert_eq!(counter.moving(id), Some(1));
    let _ = counter.release(id, 5);
    assert_eq!(counter.moving(id), None);
    counter.forget(id);
    assert_eq!(counter.release(id, 6), None);
    assert!(counter.anchors().is_empty());
}

#[test]
fn expired_taps_are_dropped_on_the_next_press() {
    let mut counter: TapCounter<u8> = TapCounter::new();
    let a = Some(PointerId::primary());
    let b = PointerId::new(5);
    let _ = counter.press(a, 0, 1, &vec![]);
    let _ = counter.release(a, 1);
    let _ = counter.press(b, TAP_TIMEOUT + 1, 2, &vec![false]);
    assert_eq!(counter.anchors(), vec![2]);
}

#[test]
fn released_key_is_no_longer_held() {
    let mut reducer = KeyboardEventReducer::new();
    let _ = reducer.reduce(&KeyboardInput::Key { key: 42, state: WlKeyState::Pressed });
    let _ = reducer.reduce(&KeyboardInput::Key { key: 42, state: WlKeyState::Pressed });
    let up = reducer.reduce(&KeyboardInput::Key { key: 42, state: WlKeyState::Released }).unwrap();
    assert!(!up.modifiers.shift());
}

#[test]
fn pointer_button_press_release_restores_the_set() {
    let mut held = PointerButtons::new();
    held.insert(PointerButton::X1);
    let before = held;
    held.insert(PointerButton::Primary);
    held.remove(PointerButton::Primary);
    assert_eq!(held, before);
    assert_eq!(held.bits(), 8);
}

#[test]
fn only_the_lowest_contact_is_primary() {
    let mut tracker: TouchTracker<()> = TouchTracker::new();
    tracker.down(8, ());
    tracker.down(-3, ());
    tracker.down(0, ());
    let changes = tracker.flush();
    let primaries: Vec<bool> = changes.iter().map(|c| c.pointer.is_primary_pointer()).collect();
    assert_eq!(primaries, vec![false, true, false]);
    assert_eq!(changes[0].pointer.pointer_id, PointerId::new(10));
}

#[test]
fn winit_touch_phases_and_ids() {
    assert_eq!(touch_event_kind(WinitTouchPhase::Started), (TouchEventKind::Down, false));
    assert_eq!(touch_event_kind(WinitTouchPhase::Moved), (TouchEventKind::Move, false));
    assert_eq!(touch_event_kind(WinitTouchPhase::Ended), (TouchEventKind::Up, true));
    assert_eq!(touch_event_kind(WinitTouchPhase::Cancelled), (TouchEventKind::Cancel, true));
    let p = winit_touch_pointer(0);
    assert_eq!(p.pointer_type, PointerType::Touch);
    assert_eq!(p.pointer_id.map(|i| i.get()), Some(1));
    assert_eq!(winit_touch_pointer(u64::MAX).pointer_id.map(|i| i.get()), Some(u64::MAX));
}

#[test]
fn winit_mouse_input_updates_the_held_buttons() {
    let none = PointerButtons::new();
    let left = mouse_input(none, Some(PointerButton::Primary), true);
    assert!(left.contains(PointerButton::Primary));
    let both = mouse_input(left, Some(PointerButton::Secondary), true);
    assert_eq!(both.bits(), 3);
    assert_eq!(mouse_input(both, None, false), both);
    assert_eq!(mouse_input(both, Some(PointerButton::Primary), false).bits(), 2);
}
