use ui_events_adapters::pointer::{PointerButton, PointerId};
use ui_events_adapters::tap::TapCounter;
use ui_events_adapters::wayland::mapping::{AxisScroll, AxisSource, BTN_LEFT};
use ui_events_adapters::wayland::pointer::{PointerTracker, WlAxis, WlButtonState};

type Anchor = (f64, f64);

/// Whether `at` is within the mouse slop of each anchor, as the caller
/// decides it.
fn near(counter: &TapCounter<Anchor>, at: Anchor) -> Vec<bool> {
    counter
        .anchors()
        .iter()
        .map(|(x, y)| (x - at.0).abs() <= 4.0 && (y - at.1).abs() <= 4.0)
        .collect()
}

#[test]
fn button_press_release_tracks_state_and_click_count() {
    let mut tracker = PointerTracker::default();
    let mut counter: TapCounter<Anchor> = TapCounter::new();
    let primary = Some(PointerId::primary());

    let down = tracker.button(BTN_LEFT, WlButtonState::Pressed).unwrap();
    let flags = near(&counter, (0.0, 0.0));
    let down_count = counter.press(primary, 1_000, (0.0, 0.0), &flags);
    let up = tracker.button(BTN_LEFT, WlButtonState::Released).unwrap();
    let up_count = counter.release(primary, 2_000);
    let down_again = tracker.button(BTN_LEFT, WlButtonState::Pressed).unwrap();
    let flags = near(&counter, (0.0, 0.0));
    let second_count = counter.press(primary, 3_000, (0.0, 0.0), &flags);

    assert!(down.pressed);
    assert_eq!(down.button, Some(PointerButton::Primary));
    assert!(down.buttons.contains(PointerButton::Primary));
    assert_eq!(down_count, 1);

    assert!(!up.pressed);
    assert_eq!(up.button, Some(PointerButton::Primary));
    assert!(!up.buttons.contains(PointerButton::Primary));
    assert_eq!(up_count, Some(1));

    assert!(down_again.pressed);
    assert_eq!(second_count, 2);
}

#[test]
fn unknown_button_keeps_button_none_but_still_emits() {
    let mut tracker = PointerTracker::default();
    let down = tracker.button(0x14a, WlButtonState::Pressed).expect("still emitted");
    assert!(down.pressed);
    assert_eq!(down.button, None);
    assert!(down.buttons.is_empty());
}

#[test]
fn wheel_scroll_accumulates_and_flushes_on_frame() {
    let mut tracker = PointerTracker::default();
    tracker.axis_source(Some(AxisSource::Wheel));
    tracker.axis_value120(WlAxis::VerticalScroll, 240);

    let scroll = tracker.flush_scroll(false);
    assert_eq!(scroll, AxisScroll::Steps120(0, 240));
    // 240 high-resolution steps are two lines.
    if let AxisScroll::Steps120(x, y) = scroll {
        assert_eq!((x as f32 / 120.0, y as f32 / 120.0), (0.0, 2.0));
    }
    // The frame's signals are reset.
    assert_eq!(tracker.flush_scroll(false), AxisScroll::Nothing);
}

#[test]
fn finger_scroll_is_scaled_pixel_delta() {
    let mut tracker = PointerTracker::default();
    tracker.axis_source(Some(AxisSource::Finger));
    assert_eq!(tracker.flush_scroll(true), AxisScroll::Pixels);
}

#[test]
fn enter_records_serial_and_scaled_position() {
    let mut tracker = PointerTracker::default();
    tracker.enter(7);
    assert_eq!(tracker.enter_serial(), Some(7));
}

#[test]
fn leave_clears_serial() {
    let mut tracker = PointerTracker::default();
    tracker.enter(7);
    tracker.leave();
    assert_eq!(tracker.enter_serial(), None);
}

#[test]
fn legacy_pointer_emits_scroll_per_axis_without_frame() {
    let tracker = PointerTracker::for_version(3);
    assert!(!tracker.frame_batched());
    assert!(PointerTracker::for_version(5).frame_batched());
    assert!(PointerTracker::default().frame_batched());
}

#[test]
fn unknown_button_state_emits_nothing() {
    let mut tracker = PointerTracker::default();
    assert_eq!(tracker.button(BTN_LEFT, WlButtonState::Unknown(9)), None);
    assert!(tracker.buttons().is_empty());
}

#[test]
fn horizontal_and_vertical_steps_sum_within_a_frame() {
    let mut tracker = PointerTracker::default();
    tracker.axis_discrete(WlAxis::HorizontalScroll, 1);
    tracker.axis_discrete(WlAxis::HorizontalScroll, 2);
    tracker.axis_discrete(WlAxis::VerticalScroll, -1);
    tracker.axis_discrete(WlAxis::Unknown(4), 100);
    assert_eq!(tracker.flush_scroll(true), AxisScroll::Detents(3, -1));
}

#[test]
fn far_or_late_second_press_restarts_the_count() {
    let mut counter: TapCounter<Anchor> = TapCounter::new();
    let primary = Some(PointerId::primary());
    let flags = near(&counter, (0.0, 0.0));
    assert_eq!(counter.press(primary, 0, (0.0, 0.0), &flags), 1);
    assert_eq!(counter.release(primary, 10), Some(1));
    // Far away: a new count.
    let flags = near(&counter, (100.0, 100.0));
    assert_eq!(counter.press(primary, 20, (100.0, 100.0), &flags), 1);
    assert_eq!(counter.release(primary, 30), Some(1));
    // Near, but after the timeout: a new count.
    let flags = near(&counter, (100.0, 100.0));
    assert_eq!(counter.press(primary, 30 + 500_000_000, (100.0, 100.0), &flags), 1);
}

#[test]
fn axis_events_flush_at_once_only_before_version_5() {
    assert!(PointerTracker::for_version(4).axis());
    assert!(!PointerTracker::for_version(5).axis());
    assert!(!PointerTracker::default().axis());
}
