use ui_events_adapters::pointer::{PointerId, PointerType};
use ui_events_adapters::wayland::touch::{TouchPhase, TouchTracker};

/// The state a caller keeps per contact: position and pressure.
#[derive(Clone, Copy, Debug, PartialEq)]
struct Contact {
    x: f64,
    y: f64,
    pressure: f32,
    width: f64,
}

fn at(x: f64, y: f64) -> Contact {
    Contact { x, y, pressure: 0.5, width: 1.0 }
}

#[test]
fn single_contact_down_is_primary_with_scaled_position_and_pressure() {
    let mut tracker: TouchTracker<Contact> = TouchTracker::new();
    tracker.down(4, at(20.0, 40.0));
    let events = tracker.flush();

    assert_eq!(events.len(), 1);
    assert_eq!(events[0].phase, TouchPhase::Down);
    assert!(events[0].pointer.is_primary_pointer());
    assert_eq!(events[0].pointer.pointer_type, PointerType::Touch);
    assert_eq!(events[0].state, at(20.0, 40.0));
}

#[test]
fn motion_updates_position_and_keeps_primary() {
    let mut tracker: TouchTracker<Contact> = TouchTracker::new();
    tracker.down(4, at(0.0, 0.0));
    let _ = tracker.flush();

    assert!(tracker.update(4, at(30.0, 40.0), TouchPhase::Motion));
    let events = tracker.flush();

    assert_eq!(events.len(), 1);
    assert_eq!(events[0].phase, TouchPhase::Motion);
    assert!(events[0].pointer.is_primary_pointer());
    assert_eq!(events[0].pointer.pointer_type, PointerType::Touch);
    assert_eq!((events[0].state.x, events[0].state.y), (30.0, 40.0));
}

#[test]
fn up_releases_contact_with_zero_pressure_and_drops_it() {
    let mut tracker: TouchTracker<Contact> = TouchTracker::new();
    tracker.down(4, at(0.0, 0.0));
    let _ = tracker.flush();

    let released = Contact { pressure: 0.0, ..at(0.0, 0.0) };
    assert!(tracker.update(4, released, TouchPhase::Up));
    let release = tracker.flush();
    assert_eq!(release.len(), 1);
    assert_eq!(release[0].phase, TouchPhase::Up);
    assert!(release[0].pointer.is_primary_pointer());
    assert_eq!(release[0].state.pressure, 0.0);
    assert!(tracker.state_of(4).is_none());

    tracker.down(9, at(0.0, 0.0));
    let next = tracker.flush();
    assert!(next[0].pointer.is_primary_pointer());
}

#[test]
fn lowest_concurrent_contact_is_primary_others_are_offset() {
    let mut tracker: TouchTracker<Contact> = TouchTracker::new();
    tracker.down(5, at(0.0, 0.0));
    tracker.down(2, at(0.0, 0.0));
    let events = tracker.flush();

    assert_eq!(events.len(), 2);
    assert_eq!(events[0].phase, TouchPhase::Down);
    assert_eq!(events[1].phase, TouchPhase::Down);
    let higher = &events[0];
    let lower = &events[1];
    assert!(lower.pointer.is_primary_pointer());
    assert!(!higher.pointer.is_primary_pointer());
    assert_eq!(higher.pointer.pointer_id, PointerId::new(7));
}

#[test]
fn shape_and_orientation_within_frame_populate_state() {
    let mut tracker: TouchTracker<Contact> = TouchTracker::new();
    tracker.down(0, at(5.0, 5.0));
    let shaped = Contact { width: 4.0, ..at(5.0, 5.0) };
    assert!(tracker.set_state(0, shaped));
    let events = tracker.flush();

    // The shape does not add a change of its own: the frame reports the down,
    // carrying the shaped state.
    assert_eq!(events.len(), 1);
    assert_eq!(events[0].phase, TouchPhase::Down);
    assert_eq!(events[0].state.width, 4.0);
}

#[test]
fn cancel_emits_for_all_contacts_and_clears_state() {
    let mut tracker: TouchTracker<Contact> = TouchTracker::new();
    tracker.down(0, at(0.0, 0.0));
    tracker.down(1, at(0.0, 0.0));
    let _ = tracker.flush();

    let cancelled = tracker.cancel();
    assert_eq!(cancelled.len(), 2);
    assert!(cancelled[0].is_primary_pointer());
    assert!(!cancelled[1].is_primary_pointer());

    tracker.down(9, at(0.0, 0.0));
    let next = tracker.flush();
    assert!(next[0].pointer.is_primary_pointer());
}

#[test]
fn touch_frame_without_changes_emits_nothing() {
    let mut tracker: TouchTracker<Contact> = TouchTracker::new();
    assert!(tracker.flush().is_empty());
}

#[test]
fn changes_of_unknown_contacts_are_ignored() {
    let mut tracker: TouchTracker<Contact> = TouchTracker::new();
    assert!(!tracker.update(3, at(1.0, 1.0), TouchPhase::Motion));
    assert!(!tracker.set_state(3, at(1.0, 1.0)));
    assert!(tracker.flush().is_empty());
}

#[test]
fn down_and_up_in_one_frame_report_the_latest_phase_once() {
    let mut tracker: TouchTracker<Contact> = TouchTracker::new();
    tracker.down(1, at(0.0, 0.0));
    assert!(tracker.update(1, at(2.0, 2.0), TouchPhase::Up));
    let events = tracker.flush();
    assert_eq!(events.len(), 1);
    assert_eq!(events[0].phase, TouchPhase::Up);
    assert_eq!(events[0].state, at(2.0, 2.0));
    assert!(tracker.state_of(1).is_none());
}

#[test]
fn repeated_changes_of_one_contact_give_one_event() {
    let mut tracker: TouchTracker<Contact> = TouchTracker::new();
    tracker.down(1, at(0.0, 0.0));
    tracker.down(2, at(0.0, 0.0));
    let _ = tracker.flush();
    assert!(tracker.update(2, at(1.0, 1.0), TouchPhase::Motion));
    assert!(tracker.update(1, at(1.0, 1.0), TouchPhase::Motion));
    assert!(tracker.update(2, at(2.0, 2.0), TouchPhase::Motion));
    assert!(tracker.update(2, at(2.0, 2.0), TouchPhase::Up));
    let events = tracker.flush();
    assert_eq!(events.len(), 2);
    assert_eq!(events[0].phase, TouchPhase::Up);
    assert_eq!(events[1].phase, TouchPhase::Motion);
    assert!(events[1].pointer.is_primary_pointer());
}
