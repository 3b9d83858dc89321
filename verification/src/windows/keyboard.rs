//! Keyboard conversions for raw Win32 `WM_KEYDOWN`/`WM_KEYUP` messages: the
//! `lParam` fields, the extended-scancode table, virtual-key locations and
//! named keys, and the modifier set from the live key states.
//!
//! The queries of live system state (`GetKeyState`, `GetKeyboardLayout`,
//! `MapVirtualKeyW`, `ToUnicode`) are made by the caller; these functions take
//! their results as plain values.

use vstd::prelude::*;

use crate::keyboard::{named_function_key, Code, Key, KeyState, KeyboardEvent, Location, Modifiers, NamedKey};
use crate::wayland::mapping::{code_location, evdev_code, KEY_ALT_L, KEY_ALT_R, KEY_BACKSPACE, KEY_CAPS_LOCK, KEY_CLEAR, KEY_CONTROL_L, KEY_CONTROL_R, KEY_DELETE, KEY_DOWN, KEY_END, KEY_ESCAPE, KEY_EXECUTE, KEY_F1, KEY_HELP, KEY_HOME, KEY_INSERT, KEY_LEFT, KEY_MENU, KEY_NUM_LOCK, KEY_PAGE_DOWN, KEY_PAGE_UP, KEY_PAUSE, KEY_PRINT, KEY_RETURN, KEY_RIGHT, KEY_SCROLL_LOCK, KEY_SELECT, KEY_SHIFT_L, KEY_SHIFT_R, KEY_SUPER_L, KEY_SUPER_R, KEY_TAB, KEY_UP, keysym_named_key};
use crate::utf16::{first_utf16_scalar, is_surrogate, utf16_well_formed};

verus! {

/// The `VK_BACK` virtual key.
pub const VK_BACK: u16 = 8;
/// The `VK_TAB` virtual key.
pub const VK_TAB: u16 = 9;
/// The `VK_CLEAR` virtual key.
pub const VK_CLEAR: u16 = 12;
/// The `VK_RETURN` virtual key.
pub const VK_RETURN: u16 = 13;
/// The `VK_SHIFT` virtual key.
pub const VK_SHIFT: u16 = 16;
/// The `VK_CONTROL` virtual key.
pub const VK_CONTROL: u16 = 17;
/// The `VK_MENU` virtual key.
pub const VK_MENU: u16 = 18;
/// The `VK_PAUSE` virtual key.
pub const VK_PAUSE: u16 = 19;
/// The `VK_CAPITAL` virtual key.
pub const VK_CAPITAL: u16 = 20;
/// The `VK_KANA` virtual key.
pub const VK_KANA: u16 = 21;
/// The `VK_HANGUL` virtual key.
pub const VK_HANGUL: u16 = 21;
/// The `VK_JUNJA` virtual key.
pub const VK_JUNJA: u16 = 23;
/// The `VK_FINAL` virtual key.
pub const VK_FINAL: u16 = 24;
/// The `VK_HANJA` virtual key.
pub const VK_HANJA: u16 = 25;
/// The `VK_KANJI` virtual key.
pub const VK_KANJI: u16 = 25;
/// The `VK_ESCAPE` virtual key.
pub const VK_ESCAPE: u16 = 27;
/// The `VK_CONVERT` virtual key.
pub const VK_CONVERT: u16 = 28;
/// The `VK_NONCONVERT` virtual key.
pub const VK_NONCONVERT: u16 = 29;
/// The `VK_ACCEPT` virtual key.
pub const VK_ACCEPT: u16 = 30;
/// The `VK_MODECHANGE` virtual key.
pub const VK_MODECHANGE: u16 = 31;
/// The `VK_PRIOR` virtual key.
pub const VK_PRIOR: u16 = 33;
/// The `VK_NEXT` virtual key.
pub const VK_NEXT: u16 = 34;
/// The `VK_END` virtual key.
pub const VK_END: u16 = 35;
/// The `VK_HOME` virtual key.
pub const VK_HOME: u16 = 36;
/// The `VK_LEFT` virtual key.
pub const VK_LEFT: u16 = 37;
/// The `VK_UP` virtual key.
pub const VK_UP: u16 = 38;
/// The `VK_RIGHT` virtual key.
pub const VK_RIGHT: u16 = 39;
/// The `VK_DOWN` virtual key.
pub const VK_DOWN: u16 = 40;
/// The `VK_SELECT` virtual key.
pub const VK_SELECT: u16 = 41;
/// The `VK_PRINT` virtual key.
pub const VK_PRINT: u16 = 42;
/// The `VK_EXECUTE` virtual key.
pub const VK_EXECUTE: u16 = 43;
/// The `VK_SNAPSHOT` virtual key.
pub const VK_SNAPSHOT: u16 = 44;
/// The `VK_INSERT` virtual key.
pub const VK_INSERT: u16 = 45;
/// The `VK_DELETE` virtual key.
pub const VK_DELETE: u16 = 46;
/// The `VK_HELP` virtual key.
pub const VK_HELP: u16 = 47;
/// The `VK_LWIN` virtual key.
pub const VK_LWIN: u16 = 91;
/// The `VK_RWIN` virtual key.
pub const VK_RWIN: u16 = 92;
/// The `VK_APPS` virtual key.
pub const VK_APPS: u16 = 93;
/// The `VK_SLEEP` virtual key.
pub const VK_SLEEP: u16 = 95;
/// The `VK_NUMPAD0` virtual key.
pub const VK_NUMPAD0: u16 = 96;
/// The `VK_NUMPAD1` virtual key.
pub const VK_NUMPAD1: u16 = 97;
/// The `VK_NUMPAD2` virtual key.
pub const VK_NUMPAD2: u16 = 98;
/// The `VK_NUMPAD3` virtual key.
pub const VK_NUMPAD3: u16 = 99;
/// The `VK_NUMPAD4` virtual key.
pub const VK_NUMPAD4: u16 = 100;
/// The `VK_NUMPAD5` virtual key.
pub const VK_NUMPAD5: u16 = 101;
/// The `VK_NUMPAD6` virtual key.
pub const VK_NUMPAD6: u16 = 102;
/// The `VK_NUMPAD7` virtual key.
pub const VK_NUMPAD7: u16 = 103;
/// The `VK_NUMPAD8` virtual key.
pub const VK_NUMPAD8: u16 = 104;
/// The `VK_NUMPAD9` virtual key.
pub const VK_NUMPAD9: u16 = 105;
/// The `VK_MULTIPLY` virtual key.
pub const VK_MULTIPLY: u16 = 106;
/// The `VK_ADD` virtual key.
pub const VK_ADD: u16 = 107;
/// The `VK_SUBTRACT` virtual key.
pub const VK_SUBTRACT: u16 = 109;
/// The `VK_DECIMAL` virtual key.
pub const VK_DECIMAL: u16 = 110;
/// The `VK_DIVIDE` virtual key.
pub const VK_DIVIDE: u16 = 111;
/// The `VK_F1` virtual key.
pub const VK_F1: u16 = 112;
/// The `VK_F2` virtual key.
pub const VK_F2: u16 = 113;
/// The `VK_F3` virtual key.
pub const VK_F3: u16 = 114;
/// The `VK_F4` virtual key.
pub const VK_F4: u16 = 115;
/// The `VK_F5` virtual key.
pub const VK_F5: u16 = 116;
/// The `VK_F6` virtual key.
pub const VK_F6: u16 = 117;
/// The `VK_F7` virtual key.
pub const VK_F7: u16 = 118;
/// The `VK_F8` virtual key.
pub const VK_F8: u16 = 119;
/// The `VK_F9` virtual key.
pub const VK_F9: u16 = 120;
/// The `VK_F10` virtual key.
pub const VK_F10: u16 = 121;
/// The `VK_F11` virtual key.
pub const VK_F11: u16 = 122;
/// The `VK_F12` virtual key.
pub const VK_F12: u16 = 123;
/// The `VK_F13` virtual key.
pub const VK_F13: u16 = 124;
/// The `VK_F14` virtual key.
pub const VK_F14: u16 = 125;
/// The `VK_F15` virtual key.
pub const VK_F15: u16 = 126;
/// The `VK_F16` virtual key.
pub const VK_F16: u16 = 127;
/// The `VK_F17` virtual key.
pub const VK_F17: u16 = 128;
/// The `VK_F18` virtual key.
pub const VK_F18: u16 = 129;
/// The `VK_F19` virtual key.
pub const VK_F19: u16 = 130;
/// The `VK_F20` virtual key.
pub const VK_F20: u16 = 131;
/// The `VK_F21` virtual key.
pub const VK_F21: u16 = 132;
/// The `VK_F22` virtual key.
pub const VK_F22: u16 = 133;
/// The `VK_F23` virtual key.
pub const VK_F23: u16 = 134;
/// The `VK_F24` virtual key.
pub const VK_F24: u16 = 135;
/// The `VK_NUMLOCK` virtual key.
pub const VK_NUMLOCK: u16 = 144;
/// The `VK_SCROLL` virtual key.
pub const VK_SCROLL: u16 = 145;
/// The `VK_LSHIFT` virtual key.
pub const VK_LSHIFT: u16 = 160;
/// The `VK_RSHIFT` virtual key.
pub const VK_RSHIFT: u16 = 161;
/// The `VK_LCONTROL` virtual key.
pub const VK_LCONTROL: u16 = 162;
/// The `VK_RCONTROL` virtual key.
pub const VK_RCONTROL: u16 = 163;
/// The `VK_LMENU` virtual key.
pub const VK_LMENU: u16 = 164;
/// The `VK_RMENU` virtual key.
pub const VK_RMENU: u16 = 165;
/// The `VK_BROWSER_BACK` virtual key.
pub const VK_BROWSER_BACK: u16 = 166;
/// The `VK_BROWSER_FORWARD` virtual key.
pub const VK_BROWSER_FORWARD: u16 = 167;
/// The `VK_BROWSER_REFRESH` virtual key.
pub const VK_BROWSER_REFRESH: u16 = 168;
/// The `VK_BROWSER_STOP` virtual key.
pub const VK_BROWSER_STOP: u16 = 169;
/// The `VK_BROWSER_SEARCH` virtual key.
pub const VK_BROWSER_SEARCH: u16 = 170;
/// The `VK_BROWSER_FAVORITES` virtual key.
pub const VK_BROWSER_FAVORITES: u16 = 171;
/// The `VK_BROWSER_HOME` virtual key.
pub const VK_BROWSER_HOME: u16 = 172;
/// The `VK_VOLUME_MUTE` virtual key.
pub const VK_VOLUME_MUTE: u16 = 173;
/// The `VK_VOLUME_DOWN` virtual key.
pub const VK_VOLUME_DOWN: u16 = 174;
/// The `VK_VOLUME_UP` virtual key.
pub const VK_VOLUME_UP: u16 = 175;
/// The `VK_MEDIA_NEXT_TRACK` virtual key.
pub const VK_MEDIA_NEXT_TRACK: u16 = 176;
/// The `VK_MEDIA_PREV_TRACK` virtual key.
pub const VK_MEDIA_PREV_TRACK: u16 = 177;
/// The `VK_MEDIA_STOP` virtual key.
pub const VK_MEDIA_STOP: u16 = 178;
/// The `VK_MEDIA_PLAY_PAUSE` virtual key.
pub const VK_MEDIA_PLAY_PAUSE: u16 = 179;
/// The `VK_LAUNCH_MAIL` virtual key.
pub const VK_LAUNCH_MAIL: u16 = 180;
/// The `VK_LAUNCH_MEDIA_SELECT` virtual key.
pub const VK_LAUNCH_MEDIA_SELECT: u16 = 181;
/// The `VK_LAUNCH_APP1` virtual key.
pub const VK_LAUNCH_APP1: u16 = 182;
/// The `VK_LAUNCH_APP2` virtual key.
pub const VK_LAUNCH_APP2: u16 = 183;
/// The `VK_ABNT_C2` virtual key.
pub const VK_ABNT_C2: u16 = 194;

/// The fields of a key message's `lParam` that key handling reads.
#[derive(Clone, Copy, Debug, PartialEq, Eq, Structural, Hash)]
pub struct KeyLParam {
    /// The hardware scancode byte (bits 16..=23).
    pub scancode: u8,
    /// Whether the key is an extended key (bit 24).
    pub extended: bool,
    /// Whether this is an auto-repeat: the previous-state bit (30) differs
    /// from the transition-state bit (31).
    pub is_repeat: bool,
}

/// Read the scancode, extended flag and repeat flag from the `lParam` of a
/// `WM_KEYDOWN`/`WM_KEYUP`/`WM_SYSKEYDOWN`/`WM_SYSKEYUP` message.
pub fn destructure_key_lparam(lparam: isize) -> (r: KeyLParam)
    ensures
        r.scancode == ((lparam as u32) as nat / 0x10000) % 0x100,
        r.extended == (((lparam as u32) as nat / 0x1000000) % 2 == 1),
        r.is_repeat == (((lparam as u32) as nat / 0x40000000) % 2 != ((lparam as u32) as nat
            / 0x80000000) % 2),
{
    let w = lparam as u32;
    let scancode = ((w >> 16u32) & 0xffu32) as u8;
    let previous_state = (w >> 30u32) & 1u32;
    let transition_state = (w >> 31u32) & 1u32;
    let extended = ((w >> 24u32) & 1u32) != 0;
    assert(((w >> 16u32) & 0xffu32) == (w / 0x10000) % 0x100) by (bit_vector);
    assert(((w >> 24u32) & 1u32) == (w / 0x1000000) % 2) by (bit_vector);
    assert(((w >> 30u32) & 1u32) == (w / 0x40000000) % 2) by (bit_vector);
    assert(((w >> 31u32) & 1u32) == (w / 0x80000000) % 2) by (bit_vector);
    assert((previous_state ^ transition_state) != 0 <==> previous_state != transition_state)
        by (bit_vector);
    KeyLParam { scancode, extended, is_repeat: (previous_state ^ transition_state) != 0 }
}

/// Combine a scancode byte and an extended flag into the extended scancode
/// [`scancode_to_code`] reads: the byte, plus `0xe000` for an extended key.
pub fn new_ex_scancode(scancode: u8, extended: bool) -> (r: u16)
    ensures
        r == scancode + (if extended {
            0xe000int
        } else {
            0int
        }),
{
    let s = scancode as u16;
    if extended {
        assert(s | 0xe000u16 == s + 0xe000u16) by (bit_vector)
            requires
                s < 256,
        ;
        s | 0xe000u16
    } else {
        assert(s | 0u16 == s) by (bit_vector);
        s | 0u16
    }
}

/// The physical key a Win32 extended scancode stands for; unknown scancodes
/// are [`Code::Unidentified`].
pub open spec fn win32_scancode_code(scancode: u32) -> Code {
    match scancode {
        0x0029 => Code::Backquote,
        0x002b => Code::Backslash,
        0x000e => Code::Backspace,
        0x001a => Code::BracketLeft,
        0x001b => Code::BracketRight,
        0x0033 => Code::Comma,
        0x000b => Code::Digit0,
        0x0002 => Code::Digit1,
        0x0003 => Code::Digit2,
        0x0004 => Code::Digit3,
        0x0005 => Code::Digit4,
        0x0006 => Code::Digit5,
        0x0007 => Code::Digit6,
        0x0008 => Code::Digit7,
        0x0009 => Code::Digit8,
        0x000a => Code::Digit9,
        0x000d => Code::Equal,
        0x0056 => Code::IntlBackslash,
        0x0073 => Code::IntlRo,
        0x007d => Code::IntlYen,
        0x001e => Code::KeyA,
        0x0030 => Code::KeyB,
        0x002e => Code::KeyC,
        0x0020 => Code::KeyD,
        0x0012 => Code::KeyE,
        0x0021 => Code::KeyF,
        0x0022 => Code::KeyG,
        0x0023 => Code::KeyH,
        0x0017 => Code::KeyI,
        0x0024 => Code::KeyJ,
        0x0025 => Code::KeyK,
        0x0026 => Code::KeyL,
        0x0032 => Code::KeyM,
        0x0031 => Code::KeyN,
        0x0018 => Code::KeyO,
        0x0019 => Code::KeyP,
        0x0010 => Code::KeyQ,
        0x0013 => Code::KeyR,
        0x001f => Code::KeyS,
        0x0014 => Code::KeyT,
        0x0016 => Code::KeyU,
        0x002f => Code::KeyV,
        0x0011 => Code::KeyW,
        0x002d => Code::KeyX,
        0x0015 => Code::KeyY,
        0x002c => Code::KeyZ,
        0x000c => Code::Minus,
        0x0034 => Code::Period,
        0x0028 => Code::Quote,
        0x0027 => Code::Semicolon,
        0x0035 => Code::Slash,
        0x0038 => Code::AltLeft,
        0xe038 => Code::AltRight,
        0x003a => Code::CapsLock,
        0xe05d => Code::ContextMenu,
        0x001d => Code::ControlLeft,
        0xe01d => Code::ControlRight,
        0x001c => Code::Enter,
        0xe05b => Code::MetaLeft,
        0xe05c => Code::MetaRight,
        0x002a => Code::ShiftLeft,
        0x0036 => Code::ShiftRight,
        0x0039 => Code::Space,
        0x000f => Code::Tab,
        0x0079 => Code::Convert,
        0x0072 => Code::Lang1,
        0xe0f2 => Code::Lang1,
        0x0071 => Code::Lang2,
        0xe0f1 => Code::Lang2,
        0x0070 => Code::KanaMode,
        0x007b => Code::NonConvert,
        0xe053 => Code::Delete,
        0xe04f => Code::End,
        0xe047 => Code::Home,
        0xe052 => Code::Insert,
        0xe051 => Code::PageDown,
        0xe049 => Code::PageUp,
        0xe050 => Code::ArrowDown,
        0xe04b => Code::ArrowLeft,
        0xe04d => Code::ArrowRight,
        0xe048 => Code::ArrowUp,
        0xe045 => Code::NumLock,
        0x0052 => Code::Numpad0,
        0x004f => Code::Numpad1,
        0x0050 => Code::Numpad2,
        0x0051 => Code::Numpad3,
        0x004b => Code::Numpad4,
        0x004c => Code::Numpad5,
        0x004d => Code::Numpad6,
        0x0047 => Code::Numpad7,
        0x0048 => Code::Numpad8,
        0x0049 => Code::Numpad9,
        0x004e => Code::NumpadAdd,
        0x007e => Code::NumpadComma,
        0x0053 => Code::NumpadDecimal,
        0xe035 => Code::NumpadDivide,
        0xe01c => Code::NumpadEnter,
        0x0059 => Code::NumpadEqual,
        0x0037 => Code::NumpadMultiply,
        0x004a => Code::NumpadSubtract,
        0x0001 => Code::Escape,
        0x003b => Code::F1,
        0x003c => Code::F2,
        0x003d => Code::F3,
        0x003e => Code::F4,
        0x003f => Code::F5,
        0x0040 => Code::F6,
        0x0041 => Code::F7,
        0x0042 => Code::F8,
        0x0043 => Code::F9,
        0x0044 => Code::F10,
        0x0057 => Code::F11,
        0x0058 => Code::F12,
        0x0064 => Code::F13,
        0x0065 => Code::F14,
        0x0066 => Code::F15,
        0x0067 => Code::F16,
        0x0068 => Code::F17,
        0x0069 => Code::F18,
        0x006a => Code::F19,
        0x006b => Code::F20,
        0x006c => Code::F21,
        0x006d => Code::F22,
        0x006e => Code::F23,
        0x0076 => Code::F24,
        0xe037 => Code::PrintScreen,
        0x0054 => Code::PrintScreen,
        0x0046 => Code::ScrollLock,
        0x0045 => Code::Pause,
        0xe046 => Code::Pause,
        0xe06a => Code::BrowserBack,
        0xe066 => Code::BrowserFavorites,
        0xe069 => Code::BrowserForward,
        0xe032 => Code::BrowserHome,
        0xe067 => Code::BrowserRefresh,
        0xe065 => Code::BrowserSearch,
        0xe068 => Code::BrowserStop,
        0xe06b => Code::LaunchApp1,
        0xe021 => Code::LaunchApp2,
        0xe06c => Code::LaunchMail,
        0xe022 => Code::MediaPlayPause,
        0xe06d => Code::MediaSelect,
        0xe024 => Code::MediaStop,
        0xe019 => Code::MediaTrackNext,
        0xe010 => Code::MediaTrackPrevious,
        0xe05e => Code::Power,
        0xe02e => Code::AudioVolumeDown,
        0xe020 => Code::AudioVolumeMute,
        0xe030 => Code::AudioVolumeUp,
        0x0077 => Code::Lang4,
        0x0078 => Code::Lang3,
        0xe008 => Code::Undo,
        0xe00a => Code::Paste,
        0xe017 => Code::Cut,
        0xe018 => Code::Copy,
        0xe02c => Code::Eject,
        0xe03b => Code::Help,
        0xe05f => Code::Sleep,
        0xe063 => Code::WakeUp,
        _ => Code::Unidentified,
    }
}

/// The Win32 scancodes (with `0xe0` in the high byte for the extended ones)
/// of the physical key `code`.
pub open spec fn win32_scancode_names(scancode: u32, code: Code) -> bool {
    match code {
        Code::Backquote => scancode == 0x0029,
        Code::Backslash => scancode == 0x002b,
        Code::BracketLeft => scancode == 0x001a,
        Code::BracketRight => scancode == 0x001b,
        Code::Comma => scancode == 0x0033,
        Code::Digit0 => scancode == 0x000b,
        Code::Digit1 => scancode == 0x0002,
        Code::Digit2 => scancode == 0x0003,
        Code::Digit3 => scancode == 0x0004,
        Code::Digit4 => scancode == 0x0005,
        Code::Digit5 => scancode == 0x0006,
        Code::Digit6 => scancode == 0x0007,
        Code::Digit7 => scancode == 0x0008,
        Code::Digit8 => scancode == 0x0009,
        Code::Digit9 => scancode == 0x000a,
        Code::Equal => scancode == 0x000d,
        Code::IntlBackslash => scancode == 0x0056,
        Code::IntlRo => scancode == 0x0073,
        Code::IntlYen => scancode == 0x007d,
        Code::KeyA => scancode == 0x001e,
        Code::KeyB => scancode == 0x0030,
        Code::KeyC => scancode == 0x002e,
        Code::KeyD => scancode == 0x0020,
        Code::KeyE => scancode == 0x0012,
        Code::KeyF => scancode == 0x0021,
        Code::KeyG => scancode == 0x0022,
        Code::KeyH => scancode == 0x0023,
        Code::KeyI => scancode == 0x0017,
        Code::KeyJ => scancode == 0x0024,
        Code::KeyK => scancode == 0x0025,
        Code::KeyL => scancode == 0x0026,
        Code::KeyM => scancode == 0x0032,
        Code::KeyN => scancode == 0x0031,
        Code::KeyO => scancode == 0x0018,
        Code::KeyP => scancode == 0x0019,
        Code::KeyQ => scancode == 0x0010,
        Code::KeyR => scancode == 0x0013,
        Code::KeyS => scancode == 0x001f,
        Code::KeyT => scancode == 0x0014,
        Code::KeyU => scancode == 0x0016,
        Code::KeyV => scancode == 0x002f,
        Code::KeyW => scancode == 0x0011,
        Code::KeyX => scancode == 0x002d,
        Code::KeyY => scancode == 0x0015,
        Code::KeyZ => scancode == 0x002c,
        Code::Minus => scancode == 0x000c,
        Code::Period => scancode == 0x0034,
        Code::Quote => scancode == 0x0028,
        Code::Semicolon => scancode == 0x0027,
        Code::Slash => scancode == 0x0035,
        Code::AltLeft => scancode == 0x0038,
        Code::AltRight => scancode == 0xe038,
        Code::Backspace => scancode == 0x000e,
        Code::CapsLock => scancode == 0x003a,
        Code::ContextMenu => scancode == 0xe05d,
        Code::ControlLeft => scancode == 0x001d,
        Code::ControlRight => scancode == 0xe01d,
        Code::Enter => scancode == 0x001c,
        Code::MetaLeft => scancode == 0xe05b,
        Code::MetaRight => scancode == 0xe05c,
        Code::ShiftLeft => scancode == 0x002a,
        Code::ShiftRight => scancode == 0x0036,
        Code::Space => scancode == 0x0039,
        Code::Tab => scancode == 0x000f,
        Code::Convert => scancode == 0x0079,
        Code::KanaMode => scancode == 0x0070,
        Code::Lang1 => scancode == 0x0072 || scancode == 0xe0f2,
        Code::Lang2 => scancode == 0x0071 || scancode == 0xe0f1,
        Code::Lang3 => scancode == 0x0078,
        Code::Lang4 => scancode == 0x0077,
        Code::NonConvert => scancode == 0x007b,
        Code::Delete => scancode == 0xe053,
        Code::End => scancode == 0xe04f,
        Code::Help => scancode == 0xe03b,
        Code::Home => scancode == 0xe047,
        Code::Insert => scancode == 0xe052,
        Code::PageDown => scancode == 0xe051,
        Code::PageUp => scancode == 0xe049,
        Code::ArrowDown => scancode == 0xe050,
        Code::ArrowLeft => scancode == 0xe04b,
        Code::ArrowRight => scancode == 0xe04d,
        Code::ArrowUp => scancode == 0xe048,
        Code::NumLock => scancode == 0xe045,
        Code::Numpad0 => scancode == 0x0052,
        Code::Numpad1 => scancode == 0x004f,
        Code::Numpad2 => scancode == 0x0050,
        Code::Numpad3 => scancode == 0x0051,
        Code::Numpad4 => scancode == 0x004b,
        Code::Numpad5 => scancode == 0x004c,
        Code::Numpad6 => scancode == 0x004d,
        Code::Numpad7 => scancode == 0x0047,
        Code::Numpad8 => scancode == 0x0048,
        Code::Numpad9 => scancode == 0x0049,
        Code::NumpadAdd => scancode == 0x004e,
        Code::NumpadComma => scancode == 0x007e,
        Code::NumpadDecimal => scancode == 0x0053,
        Code::NumpadDivide => scancode == 0xe035,
        Code::NumpadEnter => scancode == 0xe01c,
        Code::NumpadEqual => scancode == 0x0059,
        Code::NumpadMultiply => scancode == 0x0037,
        Code::NumpadSubtract => scancode == 0x004a,
        Code::Escape => scancode == 0x0001,
        Code::PrintScreen => scancode == 0xe037 || scancode == 0x0054,
        Code::ScrollLock => scancode == 0x0046,
        Code::Pause => scancode == 0x0045 || scancode == 0xe046,
        Code::BrowserBack => scancode == 0xe06a,
        Code::BrowserFavorites => scancode == 0xe066,
        Code::BrowserForward => scancode == 0xe069,
        Code::BrowserHome => scancode == 0xe032,
        Code::BrowserRefresh => scancode == 0xe067,
        Code::BrowserSearch => scancode == 0xe065,
        Code::BrowserStop => scancode == 0xe068,
        Code::Eject => scancode == 0xe02c,
        Code::LaunchApp1 => scancode == 0xe06b,
        Code::LaunchApp2 => scancode == 0xe021,
        Code::LaunchMail => scancode == 0xe06c,
        Code::MediaPlayPause => scancode == 0xe022,
        Code::MediaSelect => scancode == 0xe06d,
        Code::MediaStop => scancode == 0xe024,
        Code::MediaTrackNext => scancode == 0xe019,
        Code::MediaTrackPrevious => scancode == 0xe010,
        Code::Power => scancode == 0xe05e,
        Code::Sleep => scancode == 0xe05f,
        Code::AudioVolumeDown => scancode == 0xe02e,
        Code::AudioVolumeMute => scancode == 0xe020,
        Code::AudioVolumeUp => scancode == 0xe030,
        Code::WakeUp => scancode == 0xe063,
        Code::Copy => scancode == 0xe018,
        Code::Cut => scancode == 0xe017,
        Code::Paste => scancode == 0xe00a,
        Code::Undo => scancode == 0xe008,
        Code::F1 => scancode == 0x003b,
        Code::F2 => scancode == 0x003c,
        Code::F3 => scancode == 0x003d,
        Code::F4 => scancode == 0x003e,
        Code::F5 => scancode == 0x003f,
        Code::F6 => scancode == 0x0040,
        Code::F7 => scancode == 0x0041,
        Code::F8 => scancode == 0x0042,
        Code::F9 => scancode == 0x0043,
        Code::F10 => scancode == 0x0044,
        Code::F11 => scancode == 0x0057,
        Code::F12 => scancode == 0x0058,
        Code::F13 => scancode == 0x0064,
        Code::F14 => scancode == 0x0065,
        Code::F15 => scancode == 0x0066,
        Code::F16 => scancode == 0x0067,
        Code::F17 => scancode == 0x0068,
        Code::F18 => scancode == 0x0069,
        Code::F19 => scancode == 0x006a,
        Code::F20 => scancode == 0x006b,
        Code::F21 => scancode == 0x006c,
        Code::F22 => scancode == 0x006d,
        Code::F23 => scancode == 0x006e,
        Code::F24 => scancode == 0x0076,
        _ => false,
    }
}

/// Scancodes resolve by the keys they belong to: a scancode gives `code`
/// exactly when it is one of that key's scancodes.
#[verifier::rlimit(60)]
pub proof fn lemma_win32_scancode_by_key(scancode: u32, code: Code)
    ensures
        code != Code::Unidentified ==> (win32_scancode_code(scancode) == code <==> win32_scancode_names(scancode, code)),
{
}

/// On the main block, from Escape (`0x01`) to the keypad decimal point
/// (`0x53`) except `0x45`, and for `0x56` to `0x58`, a Win32 scancode names
/// the same key as the evdev scancode of the same number (evdev numbers the
/// PC set-1 scancodes). `0x45` alone is Pause, which Windows reports without
/// the extended prefix; Num Lock is `0xe045`.
#[verifier::rlimit(60)]
pub proof fn lemma_win32_scancodes_follow_evdev(scancode: u32)
    ensures
        (1 <= scancode <= 0x53 && scancode != 0x45) || (0x56 <= scancode <= 0x58) ==> win32_scancode_code(scancode)
            == evdev_code(scancode),
        win32_scancode_code(0x45) == Code::Pause,
        win32_scancode_code(0xe045) == Code::NumLock,
{
}

/// Convert a Win32 extended scancode into a [`Code`]. Some keys have two
/// scancodes (Print Screen with and without Alt, Pause with and without
/// Ctrl, the Korean and non-Korean language keys).
pub fn scancode_to_code(scancode: u32) -> (c: Code)
    ensures
        c == win32_scancode_code(scancode),
{
    match scancode {
        0x0029 => Code::Backquote,
        0x002b => Code::Backslash,
        0x000e => Code::Backspace,
        0x001a => Code::BracketLeft,
        0x001b => Code::BracketRight,
        0x0033 => Code::Comma,
        0x000b => Code::Digit0,
        0x0002 => Code::Digit1,
        0x0003 => Code::Digit2,
        0x0004 => Code::Digit3,
        0x0005 => Code::Digit4,
        0x0006 => Code::Digit5,
        0x0007 => Code::Digit6,
        0x0008 => Code::Digit7,
        0x0009 => Code::Digit8,
        0x000a => Code::Digit9,
        0x000d => Code::Equal,
        0x0056 => Code::IntlBackslash,
        0x0073 => Code::IntlRo,
        0x007d => Code::IntlYen,
        0x001e => Code::KeyA,
        0x0030 => Code::KeyB,
        0x002e => Code::KeyC,
        0x0020 => Code::KeyD,
        0x0012 => Code::KeyE,
        0x0021 => Code::KeyF,
        0x0022 => Code::KeyG,
        0x0023 => Code::KeyH,
        0x0017 => Code::KeyI,
        0x0024 => Code::KeyJ,
        0x0025 => Code::KeyK,
        0x0026 => Code::KeyL,
        0x0032 => Code::KeyM,
        0x0031 => Code::KeyN,
        0x0018 => Code::KeyO,
        0x0019 => Code::KeyP,
        0x0010 => Code::KeyQ,
        0x0013 => Code::KeyR,
        0x001f => Code::KeyS,
        0x0014 => Code::KeyT,
        0x0016 => Code::KeyU,
        0x002f => Code::KeyV,
        0x0011 => Code::KeyW,
        0x002d => Code::KeyX,
        0x0015 => Code::KeyY,
        0x002c => Code::KeyZ,
        0x000c => Code::Minus,
        0x0034 => Code::Period,
        0x0028 => Code::Quote,
        0x0027 => Code::Semicolon,
        0x0035 => Code::Slash,
        0x0038 => Code::AltLeft,
        0xe038 => Code::AltRight,
        0x003a => Code::CapsLock,
        0xe05d => Code::ContextMenu,
        0x001d => Code::ControlLeft,
        0xe01d => Code::ControlRight,
        0x001c => Code::Enter,
        0xe05b => Code::MetaLeft,
        0xe05c => Code::MetaRight,
        0x002a => Code::ShiftLeft,
        0x0036 => Code::ShiftRight,
        0x0039 => Code::Space,
        0x000f => Code::Tab,
        0x0079 => Code::Convert,
        0x0072 => Code::Lang1,
        0xe0f2 => Code::Lang1,
        0x0071 => Code::Lang2,
        0xe0f1 => Code::Lang2,
        0x0070 => Code::KanaMode,
        0x007b => Code::NonConvert,
        0xe053 => Code::Delete,
        0xe04f => Code::End,
        0xe047 => Code::Home,
        0xe052 => Code::Insert,
        0xe051 => Code::PageDown,
        0xe049 => Code::PageUp,
        0xe050 => Code::ArrowDown,
        0xe04b => Code::ArrowLeft,
        0xe04d => Code::ArrowRight,
        0xe048 => Code::ArrowUp,
        0xe045 => Code::NumLock,
        0x0052 => Code::Numpad0,
        0x004f => Code::Numpad1,
        0x0050 => Code::Numpad2,
        0x0051 => Code::Numpad3,
        0x004b => Code::Numpad4,
        0x004c => Code::Numpad5,
        0x004d => Code::Numpad6,
        0x0047 => Code::Numpad7,
        0x0048 => Code::Numpad8,
        0x0049 => Code::Numpad9,
        0x004e => Code::NumpadAdd,
        0x007e => Code::NumpadComma,
        0x0053 => Code::NumpadDecimal,
        0xe035 => Code::NumpadDivide,
        0xe01c => Code::NumpadEnter,
        0x0059 => Code::NumpadEqual,
        0x0037 => Code::NumpadMultiply,
        0x004a => Code::NumpadSubtract,
        0x0001 => Code::Escape,
        0x003b => Code::F1,
        0x003c => Code::F2,
        0x003d => Code::F3,
        0x003e => Code::F4,
        0x003f => Code::F5,
        0x0040 => Code::F6,
        0x0041 => Code::F7,
        0x0042 => Code::F8,
        0x0043 => Code::F9,
        0x0044 => Code::F10,
        0x0057 => Code::F11,
        0x0058 => Code::F12,
        0x0064 => Code::F13,
        0x0065 => Code::F14,
        0x0066 => Code::F15,
        0x0067 => Code::F16,
        0x0068 => Code::F17,
        0x0069 => Code::F18,
        0x006a => Code::F19,
        0x006b => Code::F20,
        0x006c => Code::F21,
        0x006d => Code::F22,
        0x006e => Code::F23,
        0x0076 => Code::F24,
        0xe037 => Code::PrintScreen,
        0x0054 => Code::PrintScreen,
        0x0046 => Code::ScrollLock,
        0x0045 => Code::Pause,
        0xe046 => Code::Pause,
        0xe06a => Code::BrowserBack,
        0xe066 => Code::BrowserFavorites,
        0xe069 => Code::BrowserForward,
        0xe032 => Code::BrowserHome,
        0xe067 => Code::BrowserRefresh,
        0xe065 => Code::BrowserSearch,
        0xe068 => Code::BrowserStop,
        0xe06b => Code::LaunchApp1,
        0xe021 => Code::LaunchApp2,
        0xe06c => Code::LaunchMail,
        0xe022 => Code::MediaPlayPause,
        0xe06d => Code::MediaSelect,
        0xe024 => Code::MediaStop,
        0xe019 => Code::MediaTrackNext,
        0xe010 => Code::MediaTrackPrevious,
        0xe05e => Code::Power,
        0xe02e => Code::AudioVolumeDown,
        0xe020 => Code::AudioVolumeMute,
        0xe030 => Code::AudioVolumeUp,
        0x0077 => Code::Lang4,
        0x0078 => Code::Lang3,
        0xe008 => Code::Undo,
        0xe00a => Code::Paste,
        0xe017 => Code::Cut,
        0xe018 => Code::Copy,
        0xe02c => Code::Eject,
        0xe03b => Code::Help,
        0xe05f => Code::Sleep,
        0xe063 => Code::WakeUp,
        _ => Code::Unidentified,
    }
}

/// The keyboard location of a virtual key, given the message's extended flag.
pub open spec fn vkey_location(vkey: u16, extended: bool) -> Location {
    if vkey == VK_LSHIFT || vkey == VK_LCONTROL || vkey == VK_LMENU || vkey == VK_LWIN {
        Location::Left
    } else if vkey == VK_RSHIFT || vkey == VK_RCONTROL || vkey == VK_RMENU || vkey == VK_RWIN {
        Location::Right
    } else if vkey == VK_RETURN && extended {
        Location::Numpad
    } else if vkey == VK_INSERT || vkey == VK_DELETE || vkey == VK_END || vkey == VK_DOWN || vkey
        == VK_NEXT || vkey == VK_LEFT || vkey == VK_CLEAR || vkey == VK_RIGHT || vkey == VK_HOME
        || vkey == VK_UP || vkey == VK_PRIOR {
        if extended {
            Location::Standard
        } else {
            Location::Numpad
        }
    } else if (VK_NUMPAD0 <= vkey && vkey <= VK_NUMPAD9) || vkey == VK_DECIMAL || vkey
        == VK_DIVIDE || vkey == VK_MULTIPLY || vkey == VK_SUBTRACT || vkey == VK_ADD || vkey
        == VK_ABNT_C2 {
        Location::Numpad
    } else {
        Location::Standard
    }
}

/// A key has the same location whichever platform reports it: the sided
/// modifier virtual keys sit where their physical keys do, the keypad
/// digits, operators and decimal point are on the keypad as their physical
/// keys are, the extended Enter is the keypad Enter and the plain one the
/// main Enter, and the extended navigation keys are the main-block ones.
pub proof fn lemma_locations_agree_with_codes(vkey: u16, extended: bool)
    ensures
        vkey_location(VK_LSHIFT, extended) == code_location(Code::ShiftLeft),
        vkey_location(VK_RSHIFT, extended) == code_location(Code::ShiftRight),
        vkey_location(VK_LCONTROL, extended) == code_location(Code::ControlLeft),
        vkey_location(VK_RCONTROL, extended) == code_location(Code::ControlRight),
        vkey_location(VK_LMENU, extended) == code_location(Code::AltLeft),
        vkey_location(VK_RMENU, extended) == code_location(Code::AltRight),
        vkey_location(VK_LWIN, extended) == code_location(Code::MetaLeft),
        vkey_location(VK_RWIN, extended) == code_location(Code::MetaRight),
        VK_NUMPAD0 <= vkey <= VK_NUMPAD9 ==> vkey_location(vkey, extended) == code_location(Code::Numpad0),
        vkey_location(VK_ADD, extended) == code_location(Code::NumpadAdd),
        vkey_location(VK_SUBTRACT, extended) == code_location(Code::NumpadSubtract),
        vkey_location(VK_MULTIPLY, extended) == code_location(Code::NumpadMultiply),
        vkey_location(VK_DIVIDE, extended) == code_location(Code::NumpadDivide),
        vkey_location(VK_DECIMAL, extended) == code_location(Code::NumpadDecimal),
        vkey_location(VK_RETURN, true) == code_location(Code::NumpadEnter),
        vkey_location(VK_RETURN, false) == code_location(Code::Enter),
        vkey_location(VK_UP, true) == code_location(Code::ArrowUp),
        vkey_location(VK_DOWN, true) == code_location(Code::ArrowDown),
        vkey_location(VK_LEFT, true) == code_location(Code::ArrowLeft),
        vkey_location(VK_RIGHT, true) == code_location(Code::ArrowRight),
        vkey_location(VK_HOME, true) == code_location(Code::Home),
        vkey_location(VK_END, true) == code_location(Code::End),
        vkey_location(VK_PRIOR, true) == code_location(Code::PageUp),
        vkey_location(VK_NEXT, true) == code_location(Code::PageDown),
        vkey_location(VK_INSERT, true) == code_location(Code::Insert),
        vkey_location(VK_DELETE, true) == code_location(Code::Delete),
{
}

/// Convert a virtual key into a [`Location`]: the left and right modifier
/// keys are `Left`/`Right`; the keypad Enter (extended `VK_RETURN`), the
/// keypad digits, operators and decimal point, and the non-extended
/// navigation keys (the keypad with Num Lock off) are `Numpad`; the rest are
/// `Standard`.
pub fn get_location(vkey: u16, extended: bool) -> (l: Location)
    ensures
        l == vkey_location(vkey, extended),
{
    match vkey {
        VK_LSHIFT | VK_LCONTROL | VK_LMENU | VK_LWIN => Location::Left,
        VK_RSHIFT | VK_RCONTROL | VK_RMENU | VK_RWIN => Location::Right,
        VK_RETURN if extended => Location::Numpad,
        VK_INSERT | VK_DELETE | VK_END | VK_DOWN | VK_NEXT | VK_LEFT | VK_CLEAR | VK_RIGHT
        | VK_HOME | VK_UP | VK_PRIOR => {
            if extended {
                Location::Standard
            } else {
                Location::Numpad
            }
        },
        VK_NUMPAD0 | VK_NUMPAD1 | VK_NUMPAD2 | VK_NUMPAD3 | VK_NUMPAD4 | VK_NUMPAD5
        | VK_NUMPAD6 | VK_NUMPAD7 | VK_NUMPAD8 | VK_NUMPAD9 | VK_DECIMAL | VK_DIVIDE
        | VK_MULTIPLY | VK_SUBTRACT | VK_ADD | VK_ABNT_C2 => Location::Numpad,
        _ => Location::Standard,
    }
}

/// The primary language of a keyboard layout handle: the low ten bits of its
/// language identifier.
pub open spec fn layout_primary_language(layout: usize) -> nat {
    (layout as nat) % 1024
}

/// The primary language identifier of Korean.
pub const LANG_KOREAN: u16 = 18;
/// The primary language identifier of Japanese.
pub const LANG_JAPANESE: u16 = 17;

/// The named key of a non-printable virtual key under a layout whose primary
/// language is `lang`.
pub open spec fn vkey_named_key(vkey: u16, lang: nat) -> Option<NamedKey> {
    let is_korean = lang == LANG_KOREAN;
    let is_japanese = lang == LANG_JAPANESE;
    match vkey {
        8 => Some(NamedKey::Backspace),
        9 => Some(NamedKey::Tab),
        12 => Some(NamedKey::Clear),
        13 => Some(NamedKey::Enter),
        16 | 160 | 161 => Some(NamedKey::Shift),
        17 | 162 | 163 => Some(NamedKey::Control),
        18 | 164 | 165 => Some(NamedKey::Alt),
        19 => Some(NamedKey::Pause),
        20 => Some(NamedKey::CapsLock),
        21 if is_korean => Some(NamedKey::HangulMode),
        21 if is_japanese => Some(NamedKey::KanaMode),
        23 => Some(NamedKey::JunjaMode),
        24 => Some(NamedKey::FinalMode),
        25 if is_korean => Some(NamedKey::HanjaMode),
        25 if is_japanese => Some(NamedKey::KanjiMode),
        27 => Some(NamedKey::Escape),
        28 => Some(NamedKey::Convert),
        29 => Some(NamedKey::NonConvert),
        30 => Some(NamedKey::Accept),
        31 => Some(NamedKey::ModeChange),
        33 => Some(NamedKey::PageUp),
        34 => Some(NamedKey::PageDown),
        35 => Some(NamedKey::End),
        36 => Some(NamedKey::Home),
        37 => Some(NamedKey::ArrowLeft),
        38 => Some(NamedKey::ArrowUp),
        39 => Some(NamedKey::ArrowRight),
        40 => Some(NamedKey::ArrowDown),
        41 => Some(NamedKey::Select),
        42 => Some(NamedKey::Print),
        43 => Some(NamedKey::Execute),
        44 => Some(NamedKey::PrintScreen),
        45 => Some(NamedKey::Insert),
        46 => Some(NamedKey::Delete),
        47 => Some(NamedKey::Help),
        91 | 92 => Some(NamedKey::Meta),
        93 => Some(NamedKey::ContextMenu),
        95 => Some(NamedKey::Standby),
        112 => Some(NamedKey::F1),
        113 => Some(NamedKey::F2),
        114 => Some(NamedKey::F3),
        115 => Some(NamedKey::F4),
        116 => Some(NamedKey::F5),
        117 => Some(NamedKey::F6),
        118 => Some(NamedKey::F7),
        119 => Some(NamedKey::F8),
        120 => Some(NamedKey::F9),
        121 => Some(NamedKey::F10),
        122 => Some(NamedKey::F11),
        123 => Some(NamedKey::F12),
        124 => Some(NamedKey::F13),
        125 => Some(NamedKey::F14),
        126 => Some(NamedKey::F15),
        127 => Some(NamedKey::F16),
        128 => Some(NamedKey::F17),
        129 => Some(NamedKey::F18),
        130 => Some(NamedKey::F19),
        131 => Some(NamedKey::F20),
        132 => Some(NamedKey::F21),
        133 => Some(NamedKey::F22),
        134 => Some(NamedKey::F23),
        135 => Some(NamedKey::F24),
        144 => Some(NamedKey::NumLock),
        145 => Some(NamedKey::ScrollLock),
        166 => Some(NamedKey::BrowserBack),
        167 => Some(NamedKey::BrowserForward),
        168 => Some(NamedKey::BrowserRefresh),
        169 => Some(NamedKey::BrowserStop),
        170 => Some(NamedKey::BrowserSearch),
        171 => Some(NamedKey::BrowserFavorites),
        172 => Some(NamedKey::BrowserHome),
        173 => Some(NamedKey::AudioVolumeMute),
        174 => Some(NamedKey::AudioVolumeDown),
        175 => Some(NamedKey::AudioVolumeUp),
        176 => Some(NamedKey::MediaTrackNext),
        177 => Some(NamedKey::MediaTrackPrevious),
        178 => Some(NamedKey::MediaStop),
        179 => Some(NamedKey::MediaPlayPause),
        180 => Some(NamedKey::LaunchMail),
        181 => Some(NamedKey::LaunchMediaPlayer),
        182 => Some(NamedKey::LaunchApplication1),
        183 => Some(NamedKey::LaunchApplication2),
        _ => None,
    }
}

/// The virtual keys, by their Win32 names, that stand for the named key
/// `key` under a layout whose primary language is `lang`.
pub open spec fn vkey_names(vkey: u16, lang: nat, key: NamedKey) -> bool {
    match key {
        NamedKey::Alt => (vkey == VK_MENU || vkey == VK_LMENU || vkey == VK_RMENU),
        NamedKey::CapsLock => vkey == VK_CAPITAL,
        NamedKey::Control => (vkey == VK_CONTROL || vkey == VK_LCONTROL || vkey == VK_RCONTROL),
        NamedKey::Meta => (vkey == VK_LWIN || vkey == VK_RWIN),
        NamedKey::NumLock => vkey == VK_NUMLOCK,
        NamedKey::ScrollLock => vkey == VK_SCROLL,
        NamedKey::Shift => (vkey == VK_SHIFT || vkey == VK_LSHIFT || vkey == VK_RSHIFT),
        NamedKey::Enter => vkey == VK_RETURN,
        NamedKey::Tab => vkey == VK_TAB,
        NamedKey::ArrowDown => vkey == VK_DOWN,
        NamedKey::ArrowLeft => vkey == VK_LEFT,
        NamedKey::ArrowRight => vkey == VK_RIGHT,
        NamedKey::ArrowUp => vkey == VK_UP,
        NamedKey::End => vkey == VK_END,
        NamedKey::Home => vkey == VK_HOME,
        NamedKey::PageDown => vkey == VK_NEXT,
        NamedKey::PageUp => vkey == VK_PRIOR,
        NamedKey::Backspace => vkey == VK_BACK,
        NamedKey::Clear => vkey == VK_CLEAR,
        NamedKey::Delete => vkey == VK_DELETE,
        NamedKey::Insert => vkey == VK_INSERT,
        NamedKey::Accept => vkey == VK_ACCEPT,
        NamedKey::ContextMenu => vkey == VK_APPS,
        NamedKey::Escape => vkey == VK_ESCAPE,
        NamedKey::Execute => vkey == VK_EXECUTE,
        NamedKey::Help => vkey == VK_HELP,
        NamedKey::Pause => vkey == VK_PAUSE,
        NamedKey::Select => vkey == VK_SELECT,
        NamedKey::PrintScreen => vkey == VK_SNAPSHOT,
        NamedKey::Standby => vkey == VK_SLEEP,
        NamedKey::Convert => vkey == VK_CONVERT,
        NamedKey::FinalMode => vkey == VK_FINAL,
        NamedKey::ModeChange => vkey == VK_MODECHANGE,
        NamedKey::NonConvert => vkey == VK_NONCONVERT,
        NamedKey::HangulMode => vkey == VK_HANGUL && lang == LANG_KOREAN,
        NamedKey::HanjaMode => vkey == VK_HANJA && lang == LANG_KOREAN,
        NamedKey::JunjaMode => vkey == VK_JUNJA,
        NamedKey::KanaMode => vkey == VK_KANA && lang == LANG_JAPANESE,
        NamedKey::KanjiMode => vkey == VK_KANJI && lang == LANG_JAPANESE,
        NamedKey::MediaPlayPause => vkey == VK_MEDIA_PLAY_PAUSE,
        NamedKey::MediaStop => vkey == VK_MEDIA_STOP,
        NamedKey::MediaTrackNext => vkey == VK_MEDIA_NEXT_TRACK,
        NamedKey::MediaTrackPrevious => vkey == VK_MEDIA_PREV_TRACK,
        NamedKey::Print => vkey == VK_PRINT,
        NamedKey::AudioVolumeDown => vkey == VK_VOLUME_DOWN,
        NamedKey::AudioVolumeUp => vkey == VK_VOLUME_UP,
        NamedKey::AudioVolumeMute => vkey == VK_VOLUME_MUTE,
        NamedKey::LaunchApplication1 => vkey == VK_LAUNCH_APP1,
        NamedKey::LaunchApplication2 => vkey == VK_LAUNCH_APP2,
        NamedKey::LaunchMail => vkey == VK_LAUNCH_MAIL,
        NamedKey::LaunchMediaPlayer => vkey == VK_LAUNCH_MEDIA_SELECT,
        NamedKey::BrowserBack => vkey == VK_BROWSER_BACK,
        NamedKey::BrowserFavorites => vkey == VK_BROWSER_FAVORITES,
        NamedKey::BrowserForward => vkey == VK_BROWSER_FORWARD,
        NamedKey::BrowserHome => vkey == VK_BROWSER_HOME,
        NamedKey::BrowserRefresh => vkey == VK_BROWSER_REFRESH,
        NamedKey::BrowserSearch => vkey == VK_BROWSER_SEARCH,
        NamedKey::BrowserStop => vkey == VK_BROWSER_STOP,
        NamedKey::F1 => vkey == VK_F1,
        NamedKey::F2 => vkey == VK_F2,
        NamedKey::F3 => vkey == VK_F3,
        NamedKey::F4 => vkey == VK_F4,
        NamedKey::F5 => vkey == VK_F5,
        NamedKey::F6 => vkey == VK_F6,
        NamedKey::F7 => vkey == VK_F7,
        NamedKey::F8 => vkey == VK_F8,
        NamedKey::F9 => vkey == VK_F9,
        NamedKey::F10 => vkey == VK_F10,
        NamedKey::F11 => vkey == VK_F11,
        NamedKey::F12 => vkey == VK_F12,
        NamedKey::F13 => vkey == VK_F13,
        NamedKey::F14 => vkey == VK_F14,
        NamedKey::F15 => vkey == VK_F15,
        NamedKey::F16 => vkey == VK_F16,
        NamedKey::F17 => vkey == VK_F17,
        NamedKey::F18 => vkey == VK_F18,
        NamedKey::F19 => vkey == VK_F19,
        NamedKey::F20 => vkey == VK_F20,
        NamedKey::F21 => vkey == VK_F21,
        NamedKey::F22 => vkey == VK_F22,
        NamedKey::F23 => vkey == VK_F23,
        NamedKey::F24 => vkey == VK_F24,
        _ => false,
    }
}

/// Virtual keys resolve by their names: under any layout, a virtual key
/// names `key` exactly when it is one of the `VK_*` keys of that key (for
/// example `VK_LEFT`, `VK_UP`, `VK_RIGHT` and `VK_DOWN` for the four
/// arrows), the input-method keys only under their language.
#[verifier::rlimit(40)]
pub proof fn lemma_vkey_named_key_by_name(vkey: u16, lang: nat, key: NamedKey)
    ensures
        vkey_named_key(vkey, lang) == Some(key) <==> vkey_names(vkey, lang, key),
{
}

/// Under any layout the arrow keys `VK_LEFT`, `VK_UP`, `VK_RIGHT` and
/// `VK_DOWN` are `ArrowLeft`, `ArrowUp`, `ArrowRight` and `ArrowDown`, and
/// the navigation keys from `VK_PRIOR` to `VK_DOWN` name different keys.
pub proof fn lemma_vkey_navigation(lang: nat, a: u16, b: u16)
    ensures
        vkey_named_key(VK_LEFT, lang) == Some(NamedKey::ArrowLeft),
        vkey_named_key(VK_UP, lang) == Some(NamedKey::ArrowUp),
        vkey_named_key(VK_RIGHT, lang) == Some(NamedKey::ArrowRight),
        vkey_named_key(VK_DOWN, lang) == Some(NamedKey::ArrowDown),
        VK_PRIOR <= a <= VK_DOWN && VK_PRIOR <= b <= VK_DOWN && a != b ==> vkey_named_key(a, lang) != vkey_named_key(b, lang),
{
}

/// Under any layout `VK_F1` to `VK_F24` are `F1` to `F24` in order.
pub proof fn lemma_vkey_function_keys(vkey: u16, lang: nat)
    ensures
        VK_F1 <= vkey <= VK_F24 ==> vkey_named_key(vkey, lang) == Some(named_function_key((vkey - VK_F1 + 1) as int)),
{
}

/// A key that both platforms name is named alike by its XKB keysym and by
/// its virtual key, under any layout: the editing, navigation, lock and
/// modifier keys, and `F1` to `F24`.
#[verifier::rlimit(40)]
pub proof fn lemma_named_keys_agree_with_keysyms(lang: nat, n: u32)
    ensures
        keysym_named_key(KEY_BACKSPACE) == vkey_named_key(VK_BACK, lang),
        keysym_named_key(KEY_TAB) == vkey_named_key(VK_TAB, lang),
        keysym_named_key(KEY_CLEAR) == vkey_named_key(VK_CLEAR, lang),
        keysym_named_key(KEY_RETURN) == vkey_named_key(VK_RETURN, lang),
        keysym_named_key(KEY_PAUSE) == vkey_named_key(VK_PAUSE, lang),
        keysym_named_key(KEY_SCROLL_LOCK) == vkey_named_key(VK_SCROLL, lang),
        keysym_named_key(KEY_ESCAPE) == vkey_named_key(VK_ESCAPE, lang),
        keysym_named_key(KEY_HOME) == vkey_named_key(VK_HOME, lang),
        keysym_named_key(KEY_LEFT) == vkey_named_key(VK_LEFT, lang),
        keysym_named_key(KEY_UP) == vkey_named_key(VK_UP, lang),
        keysym_named_key(KEY_RIGHT) == vkey_named_key(VK_RIGHT, lang),
        keysym_named_key(KEY_DOWN) == vkey_named_key(VK_DOWN, lang),
        keysym_named_key(KEY_PAGE_UP) == vkey_named_key(VK_PRIOR, lang),
        keysym_named_key(KEY_PAGE_DOWN) == vkey_named_key(VK_NEXT, lang),
        keysym_named_key(KEY_END) == vkey_named_key(VK_END, lang),
        keysym_named_key(KEY_SELECT) == vkey_named_key(VK_SELECT, lang),
        keysym_named_key(KEY_PRINT) == vkey_named_key(VK_SNAPSHOT, lang),
        keysym_named_key(KEY_EXECUTE) == vkey_named_key(VK_EXECUTE, lang),
        keysym_named_key(KEY_INSERT) == vkey_named_key(VK_INSERT, lang),
        keysym_named_key(KEY_DELETE) == vkey_named_key(VK_DELETE, lang),
        keysym_named_key(KEY_HELP) == vkey_named_key(VK_HELP, lang),
        keysym_named_key(KEY_MENU) == vkey_named_key(VK_APPS, lang),
        keysym_named_key(KEY_NUM_LOCK) == vkey_named_key(VK_NUMLOCK, lang),
        keysym_named_key(KEY_CAPS_LOCK) == vkey_named_key(VK_CAPITAL, lang),
        keysym_named_key(KEY_SHIFT_L) == vkey_named_key(VK_LSHIFT, lang),
        keysym_named_key(KEY_SHIFT_R) == vkey_named_key(VK_RSHIFT, lang),
        keysym_named_key(KEY_CONTROL_L) == vkey_named_key(VK_LCONTROL, lang),
        keysym_named_key(KEY_CONTROL_R) == vkey_named_key(VK_RCONTROL, lang),
        keysym_named_key(KEY_ALT_L) == vkey_named_key(VK_LMENU, lang),
        keysym_named_key(KEY_ALT_R) == vkey_named_key(VK_RMENU, lang),
        keysym_named_key(KEY_SUPER_L) == vkey_named_key(VK_LWIN, lang),
        keysym_named_key(KEY_SUPER_R) == vkey_named_key(VK_RWIN, lang),
        1 <= n <= 24 ==> keysym_named_key((KEY_F1 + n - 1) as u32) == vkey_named_key((VK_F1 + n - 1) as u16, lang),
{
}

/// The primary language of the keyboard layout handle `layout` (the value
/// `GetKeyboardLayout` returns, as an integer).
pub fn primary_language(layout: usize) -> (lang: u16)
    ensures
        lang == layout_primary_language(layout),
{
    let low = (layout & 0xffffusize) as u16;
    let lang = low & 0x3ffu16;
    assert((layout & 0xffffusize) as u16 & 0x3ffu16 == layout % 1024) by (bit_vector);
    lang
}

/// Convert a virtual key to a [`NamedKey`] for the non-printable keys, given
/// the active keyboard layout handle `layout` (the value `GetKeyboardLayout`
/// returns, as an integer). `VK_HANGUL`/`VK_HANJA` name keys only under a
/// Korean layout, and `VK_KANA`/`VK_KANJI` (the same codes) only under a
/// Japanese one. Printable keys give `None`; their character comes from the
/// layout.
pub fn vkey_to_named_key(vkey: u16, layout: usize) -> (r: Option<NamedKey>)
    ensures
        r == vkey_named_key(vkey, layout_primary_language(layout)),
{
    let lang = primary_language(layout);
    let is_korean = lang == LANG_KOREAN;
    let is_japanese = lang == LANG_JAPANESE;
    let k = match vkey {
        VK_BACK => NamedKey::Backspace,
        VK_TAB => NamedKey::Tab,
        VK_CLEAR => NamedKey::Clear,
        VK_RETURN => NamedKey::Enter,
        VK_SHIFT | VK_LSHIFT | VK_RSHIFT => NamedKey::Shift,
        VK_CONTROL | VK_LCONTROL | VK_RCONTROL => NamedKey::Control,
        VK_MENU | VK_LMENU | VK_RMENU => NamedKey::Alt,
        VK_PAUSE => NamedKey::Pause,
        VK_CAPITAL => NamedKey::CapsLock,
        VK_HANGUL if is_korean => NamedKey::HangulMode,
        VK_KANA if is_japanese => NamedKey::KanaMode,
        VK_JUNJA => NamedKey::JunjaMode,
        VK_FINAL => NamedKey::FinalMode,
        VK_HANJA if is_korean => NamedKey::HanjaMode,
        VK_KANJI if is_japanese => NamedKey::KanjiMode,
        VK_ESCAPE => NamedKey::Escape,
        VK_CONVERT => NamedKey::Convert,
        VK_NONCONVERT => NamedKey::NonConvert,
        VK_ACCEPT => NamedKey::Accept,
        VK_MODECHANGE => NamedKey::ModeChange,
        VK_PRIOR => NamedKey::PageUp,
        VK_NEXT => NamedKey::PageDown,
        VK_END => NamedKey::End,
        VK_HOME => NamedKey::Home,
        VK_LEFT => NamedKey::ArrowLeft,
        VK_UP => NamedKey::ArrowUp,
        VK_RIGHT => NamedKey::ArrowRight,
        VK_DOWN => NamedKey::ArrowDown,
        VK_SELECT => NamedKey::Select,
        VK_PRINT => NamedKey::Print,
        VK_EXECUTE => NamedKey::Execute,
        VK_SNAPSHOT => NamedKey::PrintScreen,
        VK_INSERT => NamedKey::Insert,
        VK_DELETE => NamedKey::Delete,
        VK_HELP => NamedKey::Help,
        VK_LWIN | VK_RWIN => NamedKey::Meta,
        VK_APPS => NamedKey::ContextMenu,
        VK_SLEEP => NamedKey::Standby,
        VK_F1 => NamedKey::F1,
        VK_F2 => NamedKey::F2,
        VK_F3 => NamedKey::F3,
        VK_F4 => NamedKey::F4,
        VK_F5 => NamedKey::F5,
        VK_F6 => NamedKey::F6,
        VK_F7 => NamedKey::F7,
        VK_F8 => NamedKey::F8,
        VK_F9 => NamedKey::F9,
        VK_F10 => NamedKey::F10,
        VK_F11 => NamedKey::F11,
        VK_F12 => NamedKey::F12,
        VK_F13 => NamedKey::F13,
        VK_F14 => NamedKey::F14,
        VK_F15 => NamedKey::F15,
        VK_F16 => NamedKey::F16,
        VK_F17 => NamedKey::F17,
        VK_F18 => NamedKey::F18,
        VK_F19 => NamedKey::F19,
        VK_F20 => NamedKey::F20,
        VK_F21 => NamedKey::F21,
        VK_F22 => NamedKey::F22,
        VK_F23 => NamedKey::F23,
        VK_F24 => NamedKey::F24,
        VK_NUMLOCK => NamedKey::NumLock,
        VK_SCROLL => NamedKey::ScrollLock,
        VK_BROWSER_BACK => NamedKey::BrowserBack,
        VK_BROWSER_FORWARD => NamedKey::BrowserForward,
        VK_BROWSER_REFRESH => NamedKey::BrowserRefresh,
        VK_BROWSER_STOP => NamedKey::BrowserStop,
        VK_BROWSER_SEARCH => NamedKey::BrowserSearch,
        VK_BROWSER_FAVORITES => NamedKey::BrowserFavorites,
        VK_BROWSER_HOME => NamedKey::BrowserHome,
        VK_VOLUME_MUTE => NamedKey::AudioVolumeMute,
        VK_VOLUME_DOWN => NamedKey::AudioVolumeDown,
        VK_VOLUME_UP => NamedKey::AudioVolumeUp,
        VK_MEDIA_NEXT_TRACK => NamedKey::MediaTrackNext,
        VK_MEDIA_PREV_TRACK => NamedKey::MediaTrackPrevious,
        VK_MEDIA_STOP => NamedKey::MediaStop,
        VK_MEDIA_PLAY_PAUSE => NamedKey::MediaPlayPause,
        VK_LAUNCH_MAIL => NamedKey::LaunchMail,
        VK_LAUNCH_MEDIA_SELECT => NamedKey::LaunchMediaPlayer,
        VK_LAUNCH_APP1 => NamedKey::LaunchApplication1,
        VK_LAUNCH_APP2 => NamedKey::LaunchApplication2,
        _ => {
            return None;
        },
    };
    Some(k)
}

/// The modifier set from the live key states: Shift when a Shift key is down;
/// Control and Alt when down unless the right Alt key is down (Windows
/// reports AltGr as a fake Ctrl+Alt, which is filtered out); Meta when either
/// logo key is down. No lock state and no Alt Graph is set.
pub fn modifiers_from_key_states(
    shift: bool,
    control: bool,
    menu: bool,
    left_win: bool,
    right_win: bool,
    right_menu: bool,
) -> (m: Modifiers)
    ensures
        m == (Modifiers {
            control: control && !right_menu,
            alt: menu && !right_menu,
            shift,
            meta: left_win || right_win,
            caps_lock: false,
            num_lock: false,
            alt_graph: false,
        }),
{
    let filter_out_altgr = right_menu;
    let mut modifiers = Modifiers::empty();
    if shift {
        modifiers.shift = true;
    }
    if control && !filter_out_altgr {
        modifiers.control = true;
    }
    if menu && !filter_out_altgr {
        modifiers.alt = true;
    }
    if left_win || right_win {
        modifiers.meta = true;
    }
    modifiers
}

/// The extended scancode of a key message: from the `lParam` scancode byte
/// and extended flag, or, when the device reported a scancode of `0` (as
/// some media keys do), the scancode the system maps the virtual key to
/// (`MapVirtualKeyW(vkey, MAPVK_VK_TO_VSC)`), given as `mapped`.
pub fn key_message_scancode(lparam: KeyLParam, mapped: u16) -> (s: u16)
    ensures
        s == (if lparam.scancode == 0 {
            mapped as int
        } else {
            lparam.scancode + (if lparam.extended {
                0xe000int
            } else {
                0int
            })
        }),
{
    if lparam.scancode == 0 {
        mapped
    } else {
        new_ex_scancode(lparam.scancode, lparam.extended)
    }
}

/// Assemble the [`KeyboardEvent`] of a `WM_KEYDOWN`/`WM_KEYUP` (or `SYS`)
/// message.
///
/// `vkey` is the message's virtual key (its `wParam`), `lparam` its decoded
/// `lParam`, `scancode` its extended scancode (see [`key_message_scancode`]),
/// `modifiers` the live modifier set, `layout` the active keyboard layout
/// handle, and `typed` the character the layout types for the key
/// (`ToUnicode`), which is read only when the virtual key has no name.
pub fn keyboard_event_from_key_message(
    vkey: u16,
    lparam: KeyLParam,
    scancode: u16,
    modifiers: Modifiers,
    layout: usize,
    typed: Option<char>,
    state: KeyState,
) -> (e: KeyboardEvent)
    ensures
        e.state == state,
        e.code == win32_scancode_code(scancode as u32),
        e.location == vkey_location(vkey, lparam.extended),
        e.modifiers == modifiers,
        e.repeat == lparam.is_repeat,
        !e.is_composing,
        vkey_named_key(vkey, layout_primary_language(layout)) matches Some(n) ==> e.key
            == Key::Named(n),
        vkey_named_key(vkey, layout_primary_language(layout)) is None && typed is None ==> e.key
            == Key::Named(NamedKey::Unidentified),
        vkey_named_key(vkey, layout_primary_language(layout)) is None ==> (typed matches Some(c)
            ==> (e.key matches Key::Character(s) && s@ == seq![c])),
{
    let code = scancode_to_code(scancode as u32);
    let location = get_location(vkey, lparam.extended);
    let key = match vkey_to_named_key(vkey, layout) {
        Some(named) => Key::Named(named),
        None => match typed {
            Some(c) => Key::Character(crate::text_util::string_from_char(c)),
            None => Key::Named(NamedKey::Unidentified),
        },
    };
    KeyboardEvent {
        key,
        code,
        modifiers,
        location,
        is_composing: false,
        repeat: lparam.is_repeat,
        state,
    }
}

/// The number of code units a `ToUnicode` result stands for: a dead key
/// (negative result) still writes one unit.
pub open spec fn typed_unit_count(result: i32) -> int {
    if result < 0 {
        1
    } else {
        result as int
    }
}

/// The character a key types, from the result of `ToUnicode` and the code
/// units it wrote: the first character of the units the result counts; `None`
/// when it counts none or more than the buffer holds, or when they are not
/// well-formed UTF-16.
pub fn typed_char(result: i32, units: [u16; 4]) -> (r: Option<char>)
    ensures
        ({
            let n = typed_unit_count(result);
            let s = units@.take(n);
            if n == 0 || n > 4 || !utf16_well_formed(s) {
                r is None
            } else {
                r matches Some(c) && c as u32 == first_utf16_scalar(s)
            }
        }),
{
    let n: usize = if result < 0 {
        1
    } else if result > 4 {
        return None;
    } else {
        result as usize
    };
    if n == 0 {
        return None;
    }
    let ghost all = units@.take(n as int);
    let mut i: usize = 0;
    proof {
        assert(all.skip(0) =~= all);
    }
    while i < n
        invariant
            n <= 4,
            n > 0,
            n == typed_unit_count(result),
            all == units@.take(n as int),
            i <= n,
            utf16_well_formed(all) == utf16_well_formed(all.skip(i as int)),
        decreases n - i,
    {
        let u = units[i];
        proof {
            let rest = all.skip(i as int);
            assert(rest[0] == u);
            assert(rest.drop_first() =~= all.skip(i as int + 1));
        }
        if u < 0xd800 || u > 0xdfff {
            i = i + 1;
        } else if u <= 0xdbff && i + 1 < n && units[i + 1] >= 0xdc00 && units[i + 1] <= 0xdfff {
            proof {
                let rest = all.skip(i as int);
                assert(rest[1] == units@[i as int + 1]);
                assert(rest.skip(2) =~= all.skip(i as int + 2));
            }
            i = i + 2;
        } else {
            proof {
                let rest = all.skip(i as int);
                assert(rest.len() == n - i);
                assert(rest[0] == units@[i as int]);
                if i + 1 < n {
                    assert(rest[1] == units@[i as int + 1]);
                }
                assert(is_surrogate(rest[0]));
                assert(!utf16_well_formed(rest));
            }
            return None;
        }
    }
    proof {
        assert(all.skip(n as int).len() == 0);
        assert(all[0] == units@[0]);
        if is_surrogate(units@[0]) {
            assert(all[1] == units@[1]);
        }
    }
    let first = units[0];
    let v: u32 = if first < 0xd800 || first > 0xdfff {
        first as u32
    } else {
        0x10000u32 + ((first as u32) - 0xd800u32) * 0x400u32 + ((units[1] as u32) - 0xdc00u32)
    };
    crate::text_util::char_from_u32(v)
}

} // verus!
