use ui_events_adapters::keyboard::{Code, Key, KeyState, Location, Modifiers, NamedKey};
use ui_events_adapters::pointer::{PointerButton, PointerButtons};
use ui_events_adapters::text::{composition_event, insert_event, TextInputEvent, TextRange};
use ui_events_adapters::utf16::string_from_le_utf16_bytes;
use ui_events_adapters::windows::keyboard::{
    destructure_key_lparam, get_location, key_message_scancode, keyboard_event_from_key_message,
    modifiers_from_key_states, new_ex_scancode, scancode_to_code, typed_char, vkey_to_named_key,
    KeyLParam,
    VK_BACK, VK_CONTROL, VK_RETURN,
};
use ui_events_adapters::windows::pointer::{
    get_xbutton_wparam, try_from_win32_button, WM_LBUTTONDOWN, WM_MBUTTONUP, WM_RBUTTONDOWN,
    WM_XBUTTONDOWN,
};
use ui_events_adapters::windows::reducer::{
    classify_message, get_x_lparam, get_y_lparam, touch_count, touch_kind, touch_pointer_id,
    wheel_delta, MouseMoveEmission, TouchKind, Win32InputState, Win32Message, WM_IME_COMPOSITION, WM_KEYDOWN,
    WM_MOUSEMOVE, WM_SYSKEYUP, WM_TOUCH,
};
use ui_events_adapters::windows::text::{
    composing_selection, cursor_byte_offset, ime_change, ime_composing_events, ime_result_events,
    targeted_clause, ImeChange, GCS_COMPSTR, GCS_RESULTSTR,
};

#[test]
fn extended_scancodes_combine_byte_and_flag() {
    assert_eq!(new_ex_scancode(0x1c, false), 0x001c);
    assert_eq!(new_ex_scancode(0x1c, true), 0xe01c);
    assert_eq!(scancode_to_code(0x001c as u32), Code::Enter);
    assert_eq!(scancode_to_code(0xe01c), Code::NumpadEnter);
    assert_eq!(scancode_to_code(0x001e), Code::KeyA);
    assert_eq!(scancode_to_code(0xffff), Code::Unidentified);
}

#[test]
fn key_lparam_fields_are_decoded() {
    // Scancode 0x1e, extended, previous state down, transition down: a repeat.
    let lparam: isize = (0x1e << 16) | (1 << 24) | (1 << 30);
    assert_eq!(
        destructure_key_lparam(lparam),
        KeyLParam { scancode: 0x1e, extended: true, is_repeat: true }
    );
    // A key-up: previous state and transition both set.
    let up: isize = (0x1e << 16) | (1 << 30) | (1 << 31);
    assert_eq!(
        destructure_key_lparam(up),
        KeyLParam { scancode: 0x1e, extended: false, is_repeat: false }
    );
}

#[test]
fn zero_scancode_falls_back_to_the_mapped_one() {
    let lparam = KeyLParam { scancode: 0, extended: true, is_repeat: false };
    assert_eq!(key_message_scancode(lparam, 0x22), 0x22);
    let lparam = KeyLParam { scancode: 0x1c, extended: true, is_repeat: false };
    assert_eq!(key_message_scancode(lparam, 0x22), 0xe01c);
}

#[test]
fn locations_split_sides_and_keypad() {
    assert_eq!(get_location(VK_RETURN, true), Location::Numpad);
    assert_eq!(get_location(VK_RETURN, false), Location::Standard);
    assert_eq!(get_location(0xa0, false), Location::Left);
    assert_eq!(get_location(0xa3, true), Location::Right);
    // The arrow keys on the keypad (Num Lock off) are not extended.
    assert_eq!(get_location(0x25, false), Location::Numpad);
    assert_eq!(get_location(0x25, true), Location::Standard);
    assert_eq!(get_location(0x60, false), Location::Numpad);
}

#[test]
fn named_keys_depend_on_the_layout_language() {
    let us = 0x0409usize;
    let korean = 0x0412usize;
    let japanese = 0x0411usize;
    assert_eq!(vkey_to_named_key(VK_BACK, us), Some(NamedKey::Backspace));
    assert_eq!(vkey_to_named_key(VK_CONTROL, us), Some(NamedKey::Control));
    assert_eq!(vkey_to_named_key(0x41, us), None);
    assert_eq!(vkey_to_named_key(0x15, korean), Some(NamedKey::HangulMode));
    assert_eq!(vkey_to_named_key(0x15, japanese), Some(NamedKey::KanaMode));
    assert_eq!(vkey_to_named_key(0x15, us), None);
}

#[test]
fn altgr_is_filtered_out_of_control_and_alt() {
    let m = modifiers_from_key_states(false, true, true, false, false, true);
    assert!(!m.ctrl());
    assert!(!m.alt());
    let m = modifiers_from_key_states(true, true, false, false, true, false);
    assert!(m.shift());
    assert!(m.ctrl());
    assert!(m.meta());
    assert!(!m.alt());
}

#[test]
fn key_message_assembles_a_keyboard_event() {
    let lparam = KeyLParam { scancode: 0x1e, extended: false, is_repeat: true };
    let e = keyboard_event_from_key_message(0x41, lparam, 0x1e, Modifiers::empty(), 0x0409, Some('a'), KeyState::Down);
    assert_eq!(e.key, Key::Character("a".to_string()));
    assert_eq!(e.code, Code::KeyA);
    assert_eq!(e.location, Location::Standard);
    assert!(e.repeat);
    assert_eq!(e.state, KeyState::Down);

    let lparam = KeyLParam { scancode: 0x1c, extended: true, is_repeat: false };
    let e = keyboard_event_from_key_message(VK_RETURN, lparam, 0xe01c, Modifiers::empty(), 0x0409, None, KeyState::Up);
    assert_eq!(e.key, Key::Named(NamedKey::Enter));
    assert_eq!(e.code, Code::NumpadEnter);
    assert_eq!(e.location, Location::Numpad);

    let lparam = KeyLParam { scancode: 0x59, extended: false, is_repeat: false };
    let e = keyboard_event_from_key_message(0xff, lparam, 0x59, Modifiers::empty(), 0x0409, None, KeyState::Up);
    assert_eq!(e.key, Key::Named(NamedKey::Unidentified));
}

#[test]
fn mouse_buttons_come_from_message_and_high_word() {
    assert_eq!(try_from_win32_button(WM_LBUTTONDOWN, 0), Some(PointerButton::Primary));
    assert_eq!(try_from_win32_button(WM_RBUTTONDOWN, 0), Some(PointerButton::Secondary));
    assert_eq!(try_from_win32_button(WM_MBUTTONUP, 0), Some(PointerButton::Auxiliary));
    assert_eq!(try_from_win32_button(WM_XBUTTONDOWN, 1 << 16), Some(PointerButton::X1));
    assert_eq!(try_from_win32_button(WM_XBUTTONDOWN, 2 << 16), Some(PointerButton::X2));
    assert_eq!(try_from_win32_button(WM_XBUTTONDOWN, 3 << 16), None);
    assert_eq!(try_from_win32_button(WM_MOUSEMOVE, 0), None);
    assert_eq!(get_xbutton_wparam(0x0002_0040), 2);
}

#[test]
fn messages_are_classified() {
    assert_eq!(classify_message(WM_KEYDOWN), Win32Message::KeyDown);
    assert_eq!(classify_message(WM_SYSKEYUP), Win32Message::KeyUp);
    assert_eq!(classify_message(WM_IME_COMPOSITION), Win32Message::ImeComposition);
    assert_eq!(classify_message(WM_XBUTTONDOWN), Win32Message::ButtonDown);
    assert_eq!(classify_message(WM_TOUCH), Win32Message::Touch);
    assert_eq!(classify_message(0x0010), Win32Message::Other);
}

#[test]
fn coordinates_and_wheel_are_sign_extended_words() {
    let lparam: isize = 0x0004_fffe;
    assert_eq!(get_x_lparam(lparam), -2);
    assert_eq!(get_y_lparam(lparam), 4);
    let lparam: isize = 0xff9c_0064u32 as isize;
    assert_eq!(get_x_lparam(lparam), 100);
    assert_eq!(get_y_lparam(lparam), -100);
    assert_eq!(wheel_delta(0xff88_0000), -120);
    assert_eq!(wheel_delta(0x0078_0000), 120);
    assert_eq!(touch_count(0x1234_0003), 3);
}

#[test]
fn touch_points_are_down_up_or_move() {
    assert_eq!(touch_kind(0x0002), (TouchKind::Down, false));
    assert_eq!(touch_kind(0x0004), (TouchKind::Up, true));
    assert_eq!(touch_kind(0x0001), (TouchKind::Move, false));
    assert_eq!(touch_pointer_id(0).map(|p| p.get()), Some(1));
    assert_eq!(touch_pointer_id(u32::MAX).map(|p| p.get()), Some(u32::MAX as u64 + 1));
}

#[test]
fn mouse_enter_leave_and_capture() {
    let mut state = Win32InputState::new();
    let enter_then_move = vec![MouseMoveEmission::Enter, MouseMoveEmission::Move];
    assert_eq!(state.mouse_move(), enter_then_move);
    assert_eq!(state.mouse_move(), vec![MouseMoveEmission::Move]);
    state.mouse_leave();
    assert_eq!(state.mouse_move(), enter_then_move);

    let down = state.button_down(WM_LBUTTONDOWN, 0);
    assert_eq!(down.button, Some(PointerButton::Primary));
    assert!(down.buttons.contains(PointerButton::Primary));
    let down = state.button_down(WM_RBUTTONDOWN, 0);
    assert!(!down.release_capture);
    let up = state.button_up(WM_LBUTTONDOWN + 1, 0);
    assert!(!up.release_capture);
    let up = state.button_up(WM_RBUTTONDOWN + 1, 0);
    assert!(up.release_capture);
    assert_eq!(state.buttons(), PointerButtons::new());
}

#[test]
fn ime_commit_after_composition_ends_it_first() {
    let mut state = Win32InputState::new();
    let update = vec![composition_event("ni".to_string(), None)];
    assert_eq!(state.ime_composition(Some(update.clone())), Some(update));
    let commit = vec![insert_event("に".to_string())];
    assert_eq!(
        state.ime_composition(Some(commit)),
        Some(vec![TextInputEvent::CompositionEnd, insert_event("に".to_string())])
    );
    // Nothing is composing any more, so the end message emits nothing.
    assert!(!state.end_ime_composition());
    assert_eq!(state.ime_composition(None), None);
}

#[test]
fn ime_end_message_ends_a_composition_in_progress() {
    let mut state = Win32InputState::new();
    let _ = state.ime_composition(Some(vec![composition_event("a".to_string(), None)]));
    assert!(state.end_ime_composition());
    assert!(!state.end_ime_composition());
}

#[test]
fn ime_change_prefers_the_result_string() {
    assert_eq!(ime_change((GCS_RESULTSTR | GCS_COMPSTR) as isize), ImeChange::Result);
    assert_eq!(ime_change(GCS_COMPSTR as isize), ImeChange::Composing);
    assert_eq!(ime_change(0x10), ImeChange::Nothing);
}

#[test]
fn ime_result_is_an_insertion() {
    assert_eq!(ime_result_events("日本".to_string()), Some(vec![insert_event("日本".to_string())]));
    assert_eq!(ime_result_events(String::new()), None);
}

#[test]
fn targeted_clause_spans_the_targeted_characters() {
    // "にほんご": the second and third characters are targeted.
    let text = "にほんご";
    assert_eq!(targeted_clause(text, &[0, 1, 1, 2]), Some((3, 9)));
    // Targeted to the end of the text.
    assert_eq!(targeted_clause(text, &[0, 0, 3, 3]), Some((6, 12)));
    // No targeted character.
    assert_eq!(targeted_clause(text, &[0, 0, 2, 2]), None);
    // Attributes run out before the clause ends: the clause runs to the end.
    assert_eq!(targeted_clause(text, &[1]), Some((0, 12)));
    // A character outside the BMP takes two attribute bytes.
    assert_eq!(targeted_clause("😀ab", &[0, 0, 1, 0]), Some((4, 5)));
}

#[test]
fn caret_offsets_count_characters_in_bytes() {
    assert_eq!(cursor_byte_offset("aé😀", 0), Some(0));
    assert_eq!(cursor_byte_offset("aé😀", 2), Some(3));
    assert_eq!(cursor_byte_offset("aé😀", 3), Some(7));
    assert_eq!(cursor_byte_offset("aé😀", 9), Some(7));
    assert_eq!(cursor_byte_offset("aé😀", -1), None);
}

#[test]
fn composing_selection_falls_back_to_the_caret() {
    assert_eq!(composing_selection("abc", &[0, 1, 0], 0), Some((1, 2)));
    assert_eq!(composing_selection("abc", &[0, 0, 0], 2), Some((2, 2)));
    assert_eq!(composing_selection("abc", &[], -1), None);
}

#[test]
fn composing_string_becomes_a_snapshot() {
    assert_eq!(
        ime_composing_events("abc".to_string(), &[0, 1, 0], 0),
        Some(vec![composition_event("abc".to_string(), Some(TextRange { start: 1, end: 2 }))])
    );
    assert_eq!(
        ime_composing_events("abc".to_string(), &[], -1),
        Some(vec![composition_event("abc".to_string(), None)])
    );
    assert_eq!(
        ime_composing_events(String::new(), &[], 0),
        Some(vec![TextInputEvent::CompositionEnd])
    );
}

#[test]
fn typed_characters_decode_utf16() {
    assert_eq!(typed_char(1, [0x61, 0, 0, 0]), Some('a'));
    // A dead key writes its unaccented character and reports -1.
    assert_eq!(typed_char(-1, [0x60, 0, 0, 0]), Some('`'));
    // A surrogate pair is one character.
    assert_eq!(typed_char(2, [0xd83d, 0xde00, 0, 0]), Some('😀'));
    // Several characters: the first one.
    assert_eq!(typed_char(2, [0x61, 0x62, 0, 0]), Some('a'));
    assert_eq!(typed_char(0, [0x61, 0, 0, 0]), None);
    assert_eq!(typed_char(5, [0x61, 0, 0, 0]), None);
    // An unpaired surrogate is not text.
    assert_eq!(typed_char(1, [0xd83d, 0xde00, 0, 0]), None);
    assert_eq!(typed_char(2, [0x61, 0xdc00, 0, 0]), None);
}

#[test]
fn composition_strings_decode_from_little_endian_utf16() {
    let decode = |bytes: &[u8]| string_from_le_utf16_bytes(bytes);
    assert_eq!(decode(&[0x6b, 0x30, 0x3d, 0xd8, 0x00, 0xde]).as_deref(), Some("に😀"));
    // An odd length is not UTF-16.
    assert_eq!(decode(&[0x61, 0x00, 0x62]), None);
    // An unpaired surrogate is not text.
    assert_eq!(decode(&[0x00, 0xd8]), None);
    assert_eq!(decode(&[]).as_deref(), Some(""));
}
