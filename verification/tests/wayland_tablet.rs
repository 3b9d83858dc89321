use ui_events_adapters::pointer::{PointerButton, PointerType};
use ui_events_adapters::wayland::mapping::{ToolType, BTN_STYLUS};
use ui_events_adapters::wayland::tablet::{
    PressureChange, TabletToolTracker, ToolButtonState, ToolEmission,
};

#[test]
fn proximity_in_then_motion_emits_enter_then_move() {
    let mut tool = TabletToolTracker::default();
    tool.proximity_in(7);
    tool.moved();
    let frame = tool.flush();

    assert_eq!(frame.events.len(), 2);
    assert_eq!(frame.events[0].emission, ToolEmission::Enter);
    let info = tool.pointer_info();
    assert!(info.is_primary_pointer());
    assert_eq!(info.pointer_type, PointerType::Pen);
    assert_eq!(frame.events[1].emission, ToolEmission::Move);
    assert_eq!(tool.proximity_serial(), Some(7));
}

#[test]
fn tip_down_then_up_tracks_primary_button_and_pressure() {
    let mut tool = TabletToolTracker::default();

    tool.tip_down();
    let down = tool.flush();
    assert_eq!(down.events.len(), 1);
    assert_eq!(down.events[0].emission, ToolEmission::Down(Some(PointerButton::Primary)));
    assert_eq!(tool.pointer_info().pointer_type, PointerType::Pen);
    assert!(down.events[0].buttons.contains(PointerButton::Primary));
    assert_eq!(down.pressure, PressureChange::Active);

    tool.tip_up();
    let up = tool.flush();
    assert_eq!(up.events[0].emission, ToolEmission::Up(Some(PointerButton::Primary)));
    assert!(!up.events[0].buttons.contains(PointerButton::Primary));
    assert_eq!(up.pressure, PressureChange::Released);
}

#[test]
fn reported_pressure_overrides_active_default() {
    let mut tool = TabletToolTracker::default();
    tool.tip_down();
    tool.pressure_reported_now();
    let frame = tool.flush();

    assert_eq!(frame.events.len(), 1);
    assert_eq!(frame.events[0].emission, ToolEmission::Down(Some(PointerButton::Primary)));
    assert_eq!(frame.pressure, PressureChange::Keep);
}

#[test]
fn tip_down_after_a_pressure_cycle_falls_back_to_active_pressure() {
    let mut tool = TabletToolTracker::default();

    tool.proximity_in(1);
    tool.tip_down();
    tool.pressure_reported_now();
    let _ = tool.flush();

    tool.tip_up();
    let _ = tool.flush();
    tool.proximity_out();
    let _ = tool.flush();

    tool.proximity_in(4);
    tool.tip_down();
    let frame = tool.flush();
    assert!(frame
        .events
        .iter()
        .any(|e| e.emission == ToolEmission::Down(Some(PointerButton::Primary))));
    assert_eq!(frame.pressure, PressureChange::Active);
}

#[test]
fn second_tip_down_in_one_proximity_without_pressure_falls_back_to_active() {
    let mut tool = TabletToolTracker::default();
    tool.proximity_in(1);

    tool.tip_down();
    tool.pressure_reported_now();
    let _ = tool.flush();
    tool.tip_up();
    let _ = tool.flush();

    tool.tip_down();
    let frame = tool.flush();
    assert!(frame
        .events
        .iter()
        .any(|e| e.emission == ToolEmission::Down(Some(PointerButton::Primary))));
    assert_eq!(frame.pressure, PressureChange::Active);
}

#[test]
fn tilt_and_slider_populate_orientation_and_tangential_pressure() {
    let mut tool = TabletToolTracker::default();
    // Tilt and slider changes are axis changes: each records a move.
    tool.moved();
    tool.moved();
    let frame = tool.flush();
    assert_eq!(frame.events.len(), 1);
    assert_eq!(frame.events[0].emission, ToolEmission::Move);
    assert_eq!(frame.pressure, PressureChange::Keep);
}

#[test]
fn eraser_tool_tip_maps_to_pen_eraser() {
    let mut tool = TabletToolTracker::default();
    tool.set_tool(Some(ToolType::Eraser));
    tool.tip_down();
    let frame = tool.flush();

    assert_eq!(frame.events[0].emission, ToolEmission::Down(Some(PointerButton::PenEraser)));
    assert_eq!(tool.pointer_info().pointer_type, PointerType::Pen);
    assert!(frame.events[0].buttons.contains(PointerButton::PenEraser));
}

#[test]
fn barrel_button_press_maps_to_secondary() {
    let mut tool = TabletToolTracker::default();
    tool.button(BTN_STYLUS, ToolButtonState::Pressed);
    let frame = tool.flush();

    assert_eq!(frame.events.len(), 1);
    assert_eq!(frame.events[0].emission, ToolEmission::Down(Some(PointerButton::Secondary)));
    assert!(frame.events[0].buttons.contains(PointerButton::Secondary));
}

#[test]
fn proximity_out_emits_leave_and_clears_serial() {
    let mut tool = TabletToolTracker::default();
    tool.proximity_in(3);
    tool.moved();
    let _ = tool.flush();

    tool.proximity_out();
    let frame = tool.flush();
    assert_eq!(frame.events.len(), 1);
    assert_eq!(frame.events[0].emission, ToolEmission::Leave);
    assert!(frame.reset);
    assert_eq!(tool.proximity_serial(), None);
}

#[test]
fn tablet_frame_without_changes_emits_nothing() {
    let mut tool = TabletToolTracker::default();
    let frame = tool.flush();
    assert!(frame.events.is_empty());
    assert!(!frame.reset);
}

#[test]
fn mouse_tool_reports_as_mouse_and_unknown_tool_changes_nothing() {
    let mut tool = TabletToolTracker::default();
    tool.set_tool(Some(ToolType::Mouse));
    assert_eq!(tool.pointer_info().pointer_type, PointerType::Mouse);
    tool.set_tool(None);
    assert_eq!(tool.pointer_info().pointer_type, PointerType::Mouse);
}

#[test]
fn barrel_changes_follow_the_tip_in_arrival_order() {
    let mut tool = TabletToolTracker::default();
    tool.tip_down();
    tool.button(BTN_STYLUS, ToolButtonState::Pressed);
    tool.button(0x14a, ToolButtonState::Pressed);
    tool.button(BTN_STYLUS, ToolButtonState::Unknown(3));
    let frame = tool.flush();
    assert_eq!(frame.events.len(), 3);
    assert_eq!(frame.events[0].emission, ToolEmission::Down(Some(PointerButton::Primary)));
    assert_eq!(frame.events[1].emission, ToolEmission::Down(Some(PointerButton::Secondary)));
    assert!(frame.events[1].buttons.contains(PointerButton::Primary));
    assert_eq!(frame.events[2].emission, ToolEmission::Down(None));
    // Leaving proximity drops every held button.
    tool.proximity_out();
    let leave = tool.flush();
    assert_eq!(leave.events[0].emission, ToolEmission::Leave);
    tool.moved();
    let after = tool.flush();
    assert!(after.events[0].buttons.is_empty());
}

#[test]
fn proximity_out_clears_the_serial_at_once() {
    let mut tool = TabletToolTracker::default();
    tool.proximity_in(5);
    tool.proximity_out();
    assert_eq!(tool.proximity_serial(), None);
    let frame = tool.flush();
    assert_eq!(frame.events[frame.events.len() - 1].emission, ToolEmission::Leave);
}

#[test]
fn tip_up_and_down_in_later_frames_use_the_active_default() {
    let mut tool = TabletToolTracker::default();
    tool.tip_down();
    tool.pressure_reported_now();
    assert_eq!(tool.flush().pressure, PressureChange::Keep);
    tool.tip_up();
    assert_eq!(tool.flush().pressure, PressureChange::Released);
    tool.tip_down();
    assert_eq!(tool.flush().pressure, PressureChange::Active);
}

#[test]
fn pressure_reported_while_hovering_stands_until_the_contact_ends() {
    let mut tool = TabletToolTracker::default();
    tool.proximity_in(3);
    tool.pressure_reported_now();
    assert_eq!(tool.flush().pressure, PressureChange::Keep);
    tool.moved();
    assert_eq!(tool.flush().pressure, PressureChange::Keep);
    // The hover pressure still stands when the tip touches down later.
    tool.tip_down();
    assert_eq!(tool.flush().pressure, PressureChange::Keep);
    tool.tip_up();
    tool.tip_down();
    // Lifting and touching down in one frame keeps the contact's pressure.
    assert_eq!(tool.flush().pressure, PressureChange::Keep);
    tool.pressure_reported_now();
    tool.proximity_out();
    let _ = tool.flush();
    // Leaving proximity ended the contact, whatever that frame reported.
    tool.proximity_in(4);
    tool.tip_down();
    assert_eq!(tool.flush().pressure, PressureChange::Active);
}
