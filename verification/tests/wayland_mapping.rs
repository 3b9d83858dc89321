use ui_events_adapters::wayland::mapping as m;
use ui_events_adapters::keyboard::{Code, Key, Location, NamedKey};
use ui_events_adapters::pointer::{PointerButton, PointerId, PointerType};
use ui_events_adapters::wayland::mapping::{
    axis_scroll_from_frame, code_from_evdev_scancode, key_from_keysym, location_from_code,
    modifiers_from_active_mods, modifiers_from_bools, named_key_from_keysym,
    pen_button_from_evdev, pointer_button_from_evdev, pointer_id_from_platform_id,
    pointer_info_from_platform_id, pointer_type_from_tool, primary_pointer_info,
    tip_button_from_tool, touch_pointer_info, AxisScroll, AxisSource, ToolType, BTN_BACK,
    BTN_EXTRA, BTN_FORWARD, BTN_LEFT, BTN_MIDDLE, BTN_RIGHT, BTN_SIDE, BTN_STYLUS, BTN_STYLUS2,
    BTN_STYLUS3, BTN_TASK, KEY_BACKSPACE, KEY_ESCAPE, KEY_F1, KEY_F24, KEY_ISO_LEVEL3_SHIFT,
    KEY_KP_ENTER, KEY_KP_LEFT, KEY_LEFT, KEY_META_R, KEY_NUM_LOCK, KEY_RETURN, KEY_SHIFT_L,
    KEY_SHIFT_R, KEY_SUPER_L, POINTER_ID_OFFSET,
};

#[test]
fn evdev_buttons_map_to_expected_pointer_buttons() {
    assert_eq!(pointer_button_from_evdev(BTN_LEFT), Some(PointerButton::Primary));
    assert_eq!(pointer_button_from_evdev(BTN_RIGHT), Some(PointerButton::Secondary));
    assert_eq!(pointer_button_from_evdev(BTN_MIDDLE), Some(PointerButton::Auxiliary));
    assert_eq!(pointer_button_from_evdev(BTN_SIDE), Some(PointerButton::X1));
    assert_eq!(pointer_button_from_evdev(BTN_EXTRA), Some(PointerButton::X2));
    assert_eq!(pointer_button_from_evdev(BTN_FORWARD), Some(PointerButton::B7));
    assert_eq!(pointer_button_from_evdev(BTN_BACK), Some(PointerButton::B8));
    assert_eq!(pointer_button_from_evdev(BTN_TASK), Some(PointerButton::B9));
}

#[test]
fn evdev_unknown_button_is_none() {
    assert_eq!(pointer_button_from_evdev(0x10f), None);
    assert_eq!(pointer_button_from_evdev(0x118), None);
    assert_eq!(pointer_button_from_evdev(0x14a), None);
}

/// Lines a `Steps120` or `Detents` decision scrolls by, as the caller
/// computes them.
fn lines(scroll: AxisScroll) -> Option<(f64, f64)> {
    match scroll {
        AxisScroll::Steps120(x, y) => Some((x as f64 / 120.0, y as f64 / 120.0)),
        AxisScroll::Detents(x, y) => Some((x as f64, y as f64)),
        _ => None,
    }
}

#[test]
fn wheel_frame_prefers_value120_over_discrete() {
    let scroll = axis_scroll_from_frame(Some(AxisSource::Wheel), (0, 240), (0, 2), true);
    assert_eq!(scroll, AxisScroll::Steps120(0, 240));
    assert_eq!(lines(scroll), Some((0.0, 2.0)));
}

#[test]
fn wheel_frame_falls_back_to_discrete() {
    let scroll = axis_scroll_from_frame(Some(AxisSource::Wheel), (0, 0), (0, -1), false);
    assert_eq!(scroll, AxisScroll::Detents(0, -1));
    assert_eq!(lines(scroll), Some((0.0, -1.0)));
}

#[test]
fn finger_frame_is_pixel_delta_scaled() {
    let scroll = axis_scroll_from_frame(Some(AxisSource::Finger), (0, 0), (0, 0), true);
    assert_eq!(scroll, AxisScroll::Pixels);
}

#[test]
fn empty_frame_is_none() {
    assert_eq!(axis_scroll_from_frame(None, (0, 0), (0, 0), false), AxisScroll::Nothing);
}

#[test]
fn sourceless_frame_with_only_value_is_pixel_delta() {
    assert_eq!(axis_scroll_from_frame(None, (0, 0), (0, 0), true), AxisScroll::Pixels);
}

#[test]
fn platform_pointer_id_does_not_collide_with_primary() {
    let id = pointer_id_from_platform_id(0).expect("offset id should be valid");
    assert_eq!(id.get(), POINTER_ID_OFFSET);
    assert_ne!(id, PointerId::primary());
}

#[test]
fn primary_pointer_info_is_primary() {
    let info = primary_pointer_info(PointerType::Mouse);
    assert!(info.is_primary_pointer());
    assert_eq!(info.pointer_type, PointerType::Mouse);
}

#[test]
fn platform_pointer_info_is_not_primary() {
    let info = pointer_info_from_platform_id(PointerType::Touch, 0);
    assert!(!info.is_primary_pointer());
    assert_eq!(info.pointer_type, PointerType::Touch);
    assert_eq!(info.pointer_id, PointerId::new(POINTER_ID_OFFSET));
}

#[test]
fn modifiers_from_bools_sets_expected_bits() {
    let mods = modifiers_from_bools(true, false, true, false);
    assert!(mods.ctrl());
    assert!(!mods.alt());
    assert!(mods.shift());
    assert!(!mods.meta());
}

#[test]
fn evdev_scancodes_map_to_expected_physical_codes() {
    assert_eq!(code_from_evdev_scancode(30), Code::KeyA);
    assert_eq!(code_from_evdev_scancode(1), Code::Escape);
    assert_eq!(code_from_evdev_scancode(28), Code::Enter);
    assert_eq!(code_from_evdev_scancode(57), Code::Space);
    assert_eq!(code_from_evdev_scancode(2), Code::Digit1);
    assert_eq!(code_from_evdev_scancode(11), Code::Digit0);
    assert_eq!(code_from_evdev_scancode(82), Code::Numpad0);
    assert_eq!(code_from_evdev_scancode(96), Code::NumpadEnter);
    assert_eq!(code_from_evdev_scancode(59), Code::F1);
    assert_eq!(code_from_evdev_scancode(88), Code::F12);
    assert_eq!(code_from_evdev_scancode(183), Code::F13);
    assert_eq!(code_from_evdev_scancode(194), Code::F24);
}

#[test]
fn evdev_modifier_scancodes_map_to_sided_codes() {
    assert_eq!(code_from_evdev_scancode(29), Code::ControlLeft);
    assert_eq!(code_from_evdev_scancode(97), Code::ControlRight);
    assert_eq!(code_from_evdev_scancode(42), Code::ShiftLeft);
    assert_eq!(code_from_evdev_scancode(54), Code::ShiftRight);
    assert_eq!(code_from_evdev_scancode(56), Code::AltLeft);
    assert_eq!(code_from_evdev_scancode(100), Code::AltRight);
    assert_eq!(code_from_evdev_scancode(125), Code::MetaLeft);
    assert_eq!(code_from_evdev_scancode(126), Code::MetaRight);
}

#[test]
fn unmapped_evdev_scancodes_are_unidentified() {
    assert_eq!(code_from_evdev_scancode(0), Code::Unidentified);
    assert_eq!(code_from_evdev_scancode(84), Code::Unidentified);
    assert_eq!(code_from_evdev_scancode(116), Code::Unidentified);
    assert_eq!(code_from_evdev_scancode(u32::MAX), Code::Unidentified);
}

#[test]
fn touch_primary_contact_is_primary_pointer() {
    let info = touch_pointer_info(3, 3);
    assert!(info.is_primary_pointer());
    assert_eq!(info.pointer_type, PointerType::Touch);
}

#[test]
fn touch_non_primary_contact_is_offset() {
    let info = touch_pointer_info(3, 1);
    assert!(!info.is_primary_pointer());
    assert_eq!(info.pointer_type, PointerType::Touch);
    assert_eq!(info.pointer_id, PointerId::new(3 + POINTER_ID_OFFSET));
}

#[test]
fn pen_buttons_map_barrel_and_defer_to_pointer_table() {
    assert_eq!(pen_button_from_evdev(BTN_STYLUS), Some(PointerButton::Secondary));
    assert_eq!(pen_button_from_evdev(BTN_STYLUS2), Some(PointerButton::B7));
    assert_eq!(pen_button_from_evdev(BTN_STYLUS3), Some(PointerButton::B8));
    assert_eq!(pen_button_from_evdev(BTN_LEFT), Some(PointerButton::Primary));
    assert_eq!(pen_button_from_evdev(0x14a), None);
}

#[test]
fn tool_types_map_to_expected_pointer_types() {
    assert_eq!(pointer_type_from_tool(ToolType::Pen), PointerType::Pen);
    assert_eq!(pointer_type_from_tool(ToolType::Eraser), PointerType::Pen);
    assert_eq!(pointer_type_from_tool(ToolType::Airbrush), PointerType::Pen);
    assert_eq!(pointer_type_from_tool(ToolType::Mouse), PointerType::Mouse);
    assert_eq!(pointer_type_from_tool(ToolType::Lens), PointerType::Mouse);
    assert_eq!(pointer_type_from_tool(ToolType::Finger), PointerType::Touch);
}

#[test]
fn eraser_tip_is_pen_eraser_others_are_primary() {
    assert_eq!(tip_button_from_tool(ToolType::Eraser), PointerButton::PenEraser);
    assert_eq!(tip_button_from_tool(ToolType::Pen), PointerButton::Primary);
    assert_eq!(tip_button_from_tool(ToolType::Mouse), PointerButton::Primary);
}

#[test]
fn keysym_named_keys_map_to_expected_named_keys() {
    assert_eq!(named_key_from_keysym(KEY_ESCAPE), Some(NamedKey::Escape));
    assert_eq!(named_key_from_keysym(KEY_RETURN), Some(NamedKey::Enter));
    assert_eq!(named_key_from_keysym(KEY_KP_ENTER), Some(NamedKey::Enter));
    assert_eq!(named_key_from_keysym(KEY_BACKSPACE), Some(NamedKey::Backspace));
    assert_eq!(named_key_from_keysym(KEY_F1), Some(NamedKey::F1));
    assert_eq!(named_key_from_keysym(KEY_F24), Some(NamedKey::F24));
    assert_eq!(named_key_from_keysym(KEY_LEFT), Some(NamedKey::ArrowLeft));
    assert_eq!(named_key_from_keysym(KEY_KP_LEFT), Some(NamedKey::ArrowLeft));
    assert_eq!(named_key_from_keysym(KEY_SHIFT_L), Some(NamedKey::Shift));
    assert_eq!(named_key_from_keysym(KEY_SHIFT_R), Some(NamedKey::Shift));
    assert_eq!(named_key_from_keysym(KEY_SUPER_L), Some(NamedKey::Meta));
    assert_eq!(named_key_from_keysym(KEY_META_R), Some(NamedKey::Meta));
    assert_eq!(named_key_from_keysym(KEY_ISO_LEVEL3_SHIFT), Some(NamedKey::AltGraph));
    assert_eq!(named_key_from_keysym(KEY_NUM_LOCK), Some(NamedKey::NumLock));
}

#[test]
fn typing_keysyms_are_not_named() {
    assert_eq!(named_key_from_keysym(0x61), None);
    assert_eq!(named_key_from_keysym(0x41), None);
    assert_eq!(named_key_from_keysym(0x31), None);
    assert_eq!(named_key_from_keysym(0x20), None);
    assert_eq!(named_key_from_keysym(0), None);
}

#[test]
fn key_from_keysym_prefers_named_then_text() {
    assert_eq!(key_from_keysym(KEY_ESCAPE, "\u{1b}"), Key::Named(NamedKey::Escape));
    assert_eq!(key_from_keysym(0x61, "a"), Key::Character("a".into()));
    assert_eq!(key_from_keysym(0x20, " "), Key::Character(" ".into()));
    assert_eq!(key_from_keysym(0, "\u{1b}"), Key::Named(NamedKey::Unidentified));
    assert_eq!(key_from_keysym(0, ""), Key::Named(NamedKey::Unidentified));
}

#[test]
fn location_from_code_classifies_sides_and_numpad() {
    assert_eq!(location_from_code(Code::ShiftLeft), Location::Left);
    assert_eq!(location_from_code(Code::ControlRight), Location::Right);
    assert_eq!(location_from_code(Code::MetaLeft), Location::Left);
    assert_eq!(location_from_code(Code::Numpad5), Location::Numpad);
    assert_eq!(location_from_code(Code::NumpadEnter), Location::Numpad);
    assert_eq!(location_from_code(Code::KeyA), Location::Standard);
    assert_eq!(location_from_code(Code::NumLock), Location::Standard);
}

#[test]
fn modifiers_from_active_mods_adds_locks_and_alt_graph() {
    let mods = modifiers_from_active_mods(true, false, true, false, true, false, true);
    assert!(mods.control);
    assert!(mods.shift);
    assert!(mods.caps_lock);
    assert!(mods.alt_graph);
    assert!(!mods.alt);
    assert!(!mods.meta);
    assert!(!mods.num_lock);
}

#[test]
fn key_text_with_a_control_character_inside_is_unidentified() {
    assert_eq!(key_from_keysym(0x61, "a\u{7f}"), Key::Named(NamedKey::Unidentified));
    assert_eq!(key_from_keysym(0x61, "ab"), Key::Character("ab".into()));
}

#[test]
fn platform_id_near_the_top_has_no_pointer_id() {
    assert_eq!(pointer_id_from_platform_id(u64::MAX - 1), None);
    assert_eq!(pointer_id_from_platform_id(u64::MAX - 2).map(|p| p.get()), Some(u64::MAX));
    assert_eq!(pointer_info_from_platform_id(PointerType::Pen, u64::MAX).pointer_id, None);
}

/// The keysym constants against the values `xkbcommon` defines
/// (`xkbcommon/xkbcommon-keysyms.h`), written out.
#[test]
fn keysym_constants_match_xkbcommon() {
    assert_eq!(m::KEY_BACKSPACE, 0xff08);
    assert_eq!(m::KEY_TAB, 0xff09);
    assert_eq!(m::KEY_RETURN, 0xff0d);
    assert_eq!(m::KEY_ESCAPE, 0xff1b);
    assert_eq!(m::KEY_DELETE, 0xffff);
    assert_eq!(m::KEY_HOME, 0xff50);
    assert_eq!(m::KEY_LEFT, 0xff51);
    assert_eq!(m::KEY_END, 0xff57);
    assert_eq!(m::KEY_KP_ENTER, 0xff8d);
    assert_eq!(m::KEY_KP_LEFT, 0xff96);
    assert_eq!(m::KEY_NUM_LOCK, 0xff7f);
    assert_eq!(m::KEY_F1, 0xffbe);
    assert_eq!(m::KEY_F12, 0xffc9);
    assert_eq!(m::KEY_F35, 0xffe0);
    assert_eq!(m::KEY_SHIFT_L, 0xffe1);
    assert_eq!(m::KEY_CONTROL_R, 0xffe4);
    assert_eq!(m::KEY_SUPER_L, 0xffeb);
    assert_eq!(m::KEY_ALT_R, 0xffea);
    assert_eq!(m::KEY_ISO_LEVEL3_SHIFT, 0xfe03);
    assert_eq!(m::KEY_ISO_LEFT_TAB, 0xfe20);
}
