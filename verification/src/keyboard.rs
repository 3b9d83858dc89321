//! Keyboard values produced by the adapters: physical key codes, named
//! logical keys, key states, locations and modifier sets.
//!
//! The variant names follow the W3C UI Events `code` and `key` vocabularies, so
//! each value corresponds one for one to the value of the same name in the
//! `ui-events` keyboard types.

use vstd::prelude::*;

verus! {

/// A physical key position, named after the W3C UI Events `code` values.
#[derive(Clone, Copy, Debug, PartialEq, Eq, Structural, Hash)]
pub enum Code {
    Backquote, Backslash, BracketLeft, BracketRight, Comma, Digit0, Digit1, Digit2, Digit3,
    Digit4, Digit5, Digit6, Digit7, Digit8, Digit9, Equal, IntlBackslash, IntlRo, IntlYen, KeyA,
    KeyB, KeyC, KeyD, KeyE, KeyF, KeyG, KeyH, KeyI, KeyJ, KeyK, KeyL, KeyM, KeyN, KeyO, KeyP,
    KeyQ, KeyR, KeyS, KeyT, KeyU, KeyV, KeyW, KeyX, KeyY, KeyZ, Minus, Period, Quote, Semicolon,
    Slash, AltLeft, AltRight, Backspace, CapsLock, ContextMenu, ControlLeft, ControlRight,
    Enter, MetaLeft, MetaRight, ShiftLeft, ShiftRight, Space, Tab, Convert, KanaMode, Lang1,
    Lang2, Lang3, Lang4, Lang5, NonConvert, Delete, End, Help, Home, Insert, PageDown, PageUp,
    ArrowDown, ArrowLeft, ArrowRight, ArrowUp, NumLock, Numpad0, Numpad1, Numpad2, Numpad3,
    Numpad4, Numpad5, Numpad6, Numpad7, Numpad8, Numpad9, NumpadAdd, NumpadComma, NumpadDecimal,
    NumpadDivide, NumpadEnter, NumpadEqual, NumpadMultiply, NumpadSubtract, Escape, PrintScreen,
    ScrollLock, Pause, BrowserBack, BrowserFavorites, BrowserForward, BrowserHome,
    BrowserRefresh, BrowserSearch, BrowserStop, Eject, LaunchApp1, LaunchApp2, LaunchMail,
    MediaPlayPause, MediaSelect, MediaStop, MediaTrackNext, MediaTrackPrevious, Power, Sleep,
    AudioVolumeDown, AudioVolumeMute, AudioVolumeUp, WakeUp, Copy, Cut, Paste, Undo,
    Unidentified, F1, F2, F3, F4, F5, F6, F7, F8, F9, F10, F11, F12, F13, F14, F15, F16, F17,
    F18, F19, F20, F21, F22, F23, F24,
}

/// A logical key that has a name rather than a character value, after the
/// W3C UI Events `key` values.
#[derive(Clone, Copy, Debug, PartialEq, Eq, Structural, Hash)]
pub enum NamedKey {
    Unidentified, Alt, AltGraph, CapsLock, Control, Meta, NumLock, ScrollLock, Shift, Enter,
    Tab, ArrowDown, ArrowLeft, ArrowRight, ArrowUp, End, Home, PageDown, PageUp, Backspace,
    Clear, Delete, Insert, Redo, Undo, Accept, Cancel, ContextMenu, Escape, Execute, Find, Help,
    Pause, Select, PrintScreen, Standby, Alphanumeric, Compose, Convert, FinalMode, GroupFirst,
    GroupLast, GroupNext, GroupPrevious, ModeChange, NonConvert, HangulMode, HanjaMode,
    JunjaMode, Hankaku, Hiragana, HiraganaKatakana, KanaMode, KanjiMode, Katakana, Romaji,
    Zenkaku, ZenkakuHankaku, MediaPlayPause, MediaStop, MediaTrackNext, MediaTrackPrevious,
    Print, AudioVolumeDown, AudioVolumeUp, AudioVolumeMute, LaunchApplication1,
    LaunchApplication2, LaunchMail, LaunchMediaPlayer, BrowserBack, BrowserFavorites,
    BrowserForward, BrowserHome, BrowserRefresh, BrowserSearch, BrowserStop, F1, F2, F3, F4, F5,
    F6, F7, F8, F9, F10, F11, F12, F13, F14, F15, F16, F17, F18, F19, F20, F21, F22, F23, F24,
    F25, F26, F27, F28, F29, F30, F31, F32, F33, F34, F35,
}

/// The named function key `F1` to `F35` for `n` from 1 to 35.
pub open spec fn named_function_key(n: int) -> NamedKey {
    if n == 1 { NamedKey::F1 } else if n == 2 { NamedKey::F2 } else if n == 3 { NamedKey::F3 } else if n == 4 { NamedKey::F4 } else if n == 5 { NamedKey::F5 } else if n == 6 { NamedKey::F6 } else if n == 7 { NamedKey::F7 } else if n == 8 { NamedKey::F8 } else if n == 9 { NamedKey::F9 } else if n == 10 { NamedKey::F10 } else if n == 11 { NamedKey::F11 } else if n == 12 { NamedKey::F12 } else if n == 13 { NamedKey::F13 } else if n == 14 { NamedKey::F14 } else if n == 15 { NamedKey::F15 } else if n == 16 { NamedKey::F16 } else if n == 17 { NamedKey::F17 } else if n == 18 { NamedKey::F18 } else if n == 19 { NamedKey::F19 } else if n == 20 { NamedKey::F20 } else if n == 21 { NamedKey::F21 } else if n == 22 { NamedKey::F22 } else if n == 23 { NamedKey::F23 } else if n == 24 { NamedKey::F24 } else if n == 25 { NamedKey::F25 } else if n == 26 { NamedKey::F26 } else if n == 27 { NamedKey::F27 } else if n == 28 { NamedKey::F28 } else if n == 29 { NamedKey::F29 } else if n == 30 { NamedKey::F30 } else if n == 31 { NamedKey::F31 } else if n == 32 { NamedKey::F32 } else if n == 33 { NamedKey::F33 } else if n == 34 { NamedKey::F34 } else { NamedKey::F35 }
}

/// The logical value of a key press: either a named key or the text it types.
#[derive(Clone, Debug, PartialEq, Eq, Hash)]
pub enum Key {
    /// The text the key produces in the current layout.
    Character(String),
    /// A key without a character value.
    Named(NamedKey),
}

/// Whether a key went down or up.
#[derive(Clone, Copy, Debug, PartialEq, Eq, Structural, Hash)]
pub enum KeyState {
    /// The key was pressed (or is auto-repeating).
    Down,
    /// The key was released.
    Up,
}

/// Where on the keyboard a key with several instances sits.
#[derive(Clone, Copy, Debug, PartialEq, Eq, Structural, Hash)]
pub enum Location {
    /// The key has a single instance, or this is not a left/right/keypad one.
    Standard,
    /// The left instance of a key (for example Left Shift).
    Left,
    /// The right instance of a key (for example Right Shift).
    Right,
    /// The instance on the numeric keypad.
    Numpad,
}

/// The set of active modifier keys and lock states.
#[derive(Clone, Copy, Debug, PartialEq, Eq, Structural, Hash)]
pub struct Modifiers {
    /// A Control key is held.
    pub control: bool,
    /// An Alt key is held.
    pub alt: bool,
    /// A Shift key is held.
    pub shift: bool,
    /// A Meta (logo / super) key is held.
    pub meta: bool,
    /// Caps Lock is on.
    pub caps_lock: bool,
    /// Num Lock is on.
    pub num_lock: bool,
    /// The Alt Graph (ISO level-3) modifier is active.
    pub alt_graph: bool,
}

impl Modifiers {
    /// The modifier set with nothing active.
    pub open spec fn none() -> Modifiers {
        Modifiers {
            control: false,
            alt: false,
            shift: false,
            meta: false,
            caps_lock: false,
            num_lock: false,
            alt_graph: false,
        }
    }

    /// The modifier set with nothing active.
    pub fn empty() -> (m: Modifiers)
        ensures
            m == Modifiers::none(),
    {
        Modifiers {
            control: false,
            alt: false,
            shift: false,
            meta: false,
            caps_lock: false,
            num_lock: false,
            alt_graph: false,
        }
    }

    /// Whether no modifier is active.
    pub fn is_empty(&self) -> (r: bool)
        ensures
            r == (*self == Modifiers::none()),
    {
        !self.control && !self.alt && !self.shift && !self.meta && !self.caps_lock
            && !self.num_lock && !self.alt_graph
    }

    /// Whether a Control key is held.
    pub fn ctrl(&self) -> (r: bool)
        ensures
            r == self.control,
    {
        self.control
    }

    /// Whether an Alt key is held.
    pub fn alt(&self) -> (r: bool)
        ensures
            r == self.alt,
    {
        self.alt
    }

    /// Whether a Shift key is held.
    pub fn shift(&self) -> (r: bool)
        ensures
            r == self.shift,
    {
        self.shift
    }

    /// Whether a Meta key is held.
    pub fn meta(&self) -> (r: bool)
        ensures
            r == self.meta,
    {
        self.meta
    }
}

/// A key press or release, as an adapter reports it.
#[derive(Clone, Debug, PartialEq, Eq, Hash)]
pub struct KeyboardEvent {
    /// Whether the key went down or up.
    pub state: KeyState,
    /// The logical key.
    pub key: Key,
    /// The physical key.
    pub code: Code,
    /// Where the key sits on the keyboard.
    pub location: Location,
    /// The modifiers active for this event.
    pub modifiers: Modifiers,
    /// Whether this is an auto-repeat of a held key.
    pub repeat: bool,
    /// Whether the event is part of an input-method composition.
    pub is_composing: bool,
}

} // verus!
