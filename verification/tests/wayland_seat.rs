use ui_events_adapters::wayland::keyboard::{KeyboardInput, WlKeyState};
use ui_events_adapters::wayland::pointer::PointerTracker;
use ui_events_adapters::wayland::seat::{seat_capabilities, SeatCapabilities, SeatInput, SeatReducer};
use ui_events_adapters::wayland::touch::TouchTracker;

type Seat = SeatReducer<PointerTracker, TouchTracker<(f64, f64)>>;

const POINTER: u32 = 1;
const KEYBOARD: u32 = 2;
const TOUCH: u32 = 4;
const KEY_A: u32 = 30;

/// Route a pointer event the way a caller does: through the pointer
/// reducer, created on first use.
fn route_pointer(seat: &mut Seat) {
    let mut pointer = seat.take_pointer().unwrap_or_default();
    pointer.enter(1);
    seat.put_pointer(pointer);
}

#[test]
fn seat_capabilities_reads_known_bits() {
    assert_eq!(
        seat_capabilities(POINTER | TOUCH),
        SeatCapabilities { pointer: true, keyboard: false, touch: true }
    );
    assert_eq!(seat_capabilities(0), SeatCapabilities::default());
}

#[test]
fn seat_capabilities_ignores_unknown_bits() {
    assert_eq!(
        seat_capabilities(0b1011),
        SeatCapabilities { pointer: true, keyboard: true, touch: false }
    );
}

#[test]
fn reduce_seat_tracks_capabilities() {
    let mut seat = Seat::default();
    let caps = seat.reduce_seat(SeatInput::Capabilities(POINTER | KEYBOARD));
    let expected = SeatCapabilities { pointer: true, keyboard: true, touch: false };
    assert_eq!(caps, expected);
    assert_eq!(seat.capabilities(), expected);
}

#[test]
fn pointer_events_are_routed_and_wrapped() {
    let mut seat = Seat::default();
    assert!(seat.pointer().is_none());
    route_pointer(&mut seat);
    assert!(seat.pointer().is_some());
    assert_eq!(seat.pointer().unwrap().enter_serial(), Some(1));
}

#[test]
fn for_version_routes_pointer_events() {
    let mut seat = Seat::for_version(1);
    assert_eq!(seat.version(), Some(1));
    let pointer = seat
        .take_pointer()
        .unwrap_or_else(|| PointerTracker::for_version(seat.version().unwrap_or(5)));
    assert!(!pointer.frame_batched());
    seat.put_pointer(pointer);
    assert!(seat.pointer().is_some());
}

#[test]
fn keyboard_events_are_routed_and_wrapped() {
    let mut seat = Seat::default();
    let out = seat.reduce_keyboard(&KeyboardInput::Key { key: KEY_A, state: WlKeyState::Pressed });
    assert!(out.is_some());
    assert!(seat.keyboard().is_some());
}

#[test]
fn touch_events_are_routed() {
    let mut seat = Seat::default();
    let mut touch = seat.take_touch().unwrap_or_else(TouchTracker::new);
    let out = touch.flush();
    seat.put_touch(touch);
    assert!(out.is_empty());
    assert!(seat.touch().is_some());
}

#[test]
fn lost_capability_drops_reducer() {
    let mut seat = Seat::default();
    route_pointer(&mut seat);
    assert!(seat.pointer().is_some());

    let caps = seat.reduce_seat(SeatInput::Capabilities(0));
    assert!(!caps.pointer);
    assert!(seat.pointer().is_none());
}

#[test]
fn lost_keyboard_clears_held_keys() {
    let mut seat = Seat::default();
    let _ = seat.reduce_seat(SeatInput::Capabilities(KEYBOARD));
    let _ = seat.reduce_keyboard(&KeyboardInput::Key { key: 29, state: WlKeyState::Pressed });
    assert!(seat.keyboard().unwrap().modifiers().ctrl());
    let _ = seat.reduce_seat(SeatInput::Capabilities(POINTER));
    assert!(seat.keyboard().is_none());
    let event = seat
        .reduce_keyboard(&KeyboardInput::Key { key: KEY_A, state: WlKeyState::Pressed })
        .unwrap();
    assert!(!event.modifiers.ctrl());
}

#[test]
fn other_seat_events_change_nothing() {
    let mut seat = Seat::default();
    let _ = seat.reduce_seat(SeatInput::Capabilities(TOUCH));
    let caps = seat.reduce_seat(SeatInput::Other);
    assert_eq!(caps, SeatCapabilities { pointer: false, keyboard: false, touch: true });
}
