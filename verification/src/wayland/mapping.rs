//! Platform-neutral conversions from Wayland input primitives (evdev codes,
//! XKB keysyms, axis steps, modifier booleans, contact identifiers) into the
//! key and pointer values of this crate.
//!
//! Everything here works on plain integers, booleans and strings; the
//! coordinate and angle conversions, which need floating point, are done by
//! the caller around these decisions.

use vstd::prelude::*;

use crate::keyboard::{named_function_key, Code, Key, Location, Modifiers, NamedKey};
use crate::pointer::{PointerButton, PointerId, PointerInfo, PointerType};

verus! {

/// evdev `BTN_LEFT`.
pub const BTN_LEFT: u32 = 0x110;
/// evdev `BTN_RIGHT`.
pub const BTN_RIGHT: u32 = 0x111;
/// evdev `BTN_MIDDLE`.
pub const BTN_MIDDLE: u32 = 0x112;
/// evdev `BTN_SIDE`.
pub const BTN_SIDE: u32 = 0x113;
/// evdev `BTN_EXTRA`.
pub const BTN_EXTRA: u32 = 0x114;
/// evdev `BTN_FORWARD`.
pub const BTN_FORWARD: u32 = 0x115;
/// evdev `BTN_BACK`.
pub const BTN_BACK: u32 = 0x116;
/// evdev `BTN_TASK`.
pub const BTN_TASK: u32 = 0x117;
/// evdev `BTN_STYLUS3`, the third pen barrel button.
pub const BTN_STYLUS3: u32 = 0x149;
/// evdev `BTN_STYLUS`, the first pen barrel button.
pub const BTN_STYLUS: u32 = 0x14b;
/// evdev `BTN_STYLUS2`, the second pen barrel button.
pub const BTN_STYLUS2: u32 = 0x14c;

/// The pointer button an evdev `BTN_*` code stands for, if any.
pub open spec fn evdev_pointer_button(code: u32) -> Option<PointerButton> {
    if code == BTN_LEFT {
        Some(PointerButton::Primary)
    } else if code == BTN_RIGHT {
        Some(PointerButton::Secondary)
    } else if code == BTN_MIDDLE {
        Some(PointerButton::Auxiliary)
    } else if code == BTN_SIDE {
        Some(PointerButton::X1)
    } else if code == BTN_EXTRA {
        Some(PointerButton::X2)
    } else if code == BTN_FORWARD {
        Some(PointerButton::B7)
    } else if code == BTN_BACK {
        Some(PointerButton::B8)
    } else if code == BTN_TASK {
        Some(PointerButton::B9)
    } else {
        None
    }
}

/// Map an evdev pointer button code (as `wl_pointer` reports it) to a
/// [`PointerButton`]: left, right and middle to the primary, secondary and
/// auxiliary buttons, side and extra to `X1`/`X2`, and forward, back and task
/// to the generic `B7`..`B9`. Any other code gives `None`.
pub fn pointer_button_from_evdev(code: u32) -> (r: Option<PointerButton>)
    ensures
        r == evdev_pointer_button(code),
{
    if code == BTN_LEFT {
        Some(PointerButton::Primary)
    } else if code == BTN_RIGHT {
        Some(PointerButton::Secondary)
    } else if code == BTN_MIDDLE {
        Some(PointerButton::Auxiliary)
    } else if code == BTN_SIDE {
        Some(PointerButton::X1)
    } else if code == BTN_EXTRA {
        Some(PointerButton::X2)
    } else if code == BTN_FORWARD {
        Some(PointerButton::B7)
    } else if code == BTN_BACK {
        Some(PointerButton::B8)
    } else if code == BTN_TASK {
        Some(PointerButton::B9)
    } else {
        None
    }
}

/// The button an evdev tablet-tool button code stands for (see
/// [`pen_button_from_evdev`]).
pub open spec fn pen_evdev_button(code: u32) -> Option<PointerButton> {
    if code == BTN_STYLUS {
        Some(PointerButton::Secondary)
    } else if code == BTN_STYLUS2 {
        Some(PointerButton::B7)
    } else if code == BTN_STYLUS3 {
        Some(PointerButton::B8)
    } else {
        evdev_pointer_button(code)
    }
}

/// Map an evdev tablet-tool button code to a [`PointerButton`]: the first
/// barrel button is the secondary (pen barrel) button, the second and third
/// are `B7` and `B8`, and every other code is read through the pointer-button
/// table, so a puck tool's mouse buttons map as a mouse's do.
pub fn pen_button_from_evdev(code: u32) -> (r: Option<PointerButton>)
    ensures
        r == pen_evdev_button(code),
        code == BTN_STYLUS ==> r == Some(PointerButton::Secondary),
        code == BTN_STYLUS2 ==> r == Some(PointerButton::B7),
        code == BTN_STYLUS3 ==> r == Some(PointerButton::B8),
        code != BTN_STYLUS && code != BTN_STYLUS2 && code != BTN_STYLUS3 ==> r
            == evdev_pointer_button(code),
{
    if code == BTN_STYLUS {
        Some(PointerButton::Secondary)
    } else if code == BTN_STYLUS2 {
        Some(PointerButton::B7)
    } else if code == BTN_STYLUS3 {
        Some(PointerButton::B8)
    } else {
        pointer_button_from_evdev(code)
    }
}

/// Only the eight mouse buttons `BTN_LEFT` to `BTN_TASK` name a pointer
/// button, and no two of them name the same one.
pub proof fn lemma_evdev_pointer_buttons_distinct(a: u32, b: u32)
    ensures
        evdev_pointer_button(a) is Some <==> BTN_LEFT <= a <= BTN_TASK,
        evdev_pointer_button(a) is Some && evdev_pointer_button(a) == evdev_pointer_button(b) ==> a == b,
{
}

/// The three barrel buttons of a pen name three different buttons, none of
/// them the primary button that the tip stands for, and every code that is
/// not a barrel button names what it names on a mouse.
pub proof fn lemma_pen_buttons(code: u32)
    ensures
        pen_evdev_button(BTN_STYLUS) != pen_evdev_button(BTN_STYLUS2),
        pen_evdev_button(BTN_STYLUS) != pen_evdev_button(BTN_STYLUS3),
        pen_evdev_button(BTN_STYLUS2) != pen_evdev_button(BTN_STYLUS3),
        pen_evdev_button(BTN_STYLUS) is Some && pen_evdev_button(BTN_STYLUS2) is Some && pen_evdev_button(BTN_STYLUS3) is Some,
        pen_evdev_button(BTN_STYLUS) != Some(PointerButton::Primary) && pen_evdev_button(BTN_STYLUS2) != Some(
            PointerButton::Primary,
        ) && pen_evdev_button(BTN_STYLUS3) != Some(PointerButton::Primary),
        code != BTN_STYLUS && code != BTN_STYLUS2 && code != BTN_STYLUS3 ==> pen_evdev_button(code) == evdev_pointer_button(code),
{
}

/// The scroll axis source reported by `wl_pointer`.
#[derive(Clone, Copy, Debug, PartialEq, Eq, Structural, Hash)]
pub enum AxisSource {
    /// A physical scroll wheel with discrete detents.
    Wheel,
    /// A finger on a touchpad.
    Finger,
    /// Continuous, unbounded scrolling (for example a trackball or ring).
    Continuous,
    /// A tilting scroll wheel.
    WheelTilt,
}

/// Which signal of an accumulated axis frame becomes the scroll delta.
#[derive(Clone, Copy, Debug, PartialEq, Eq, Structural, Hash)]
pub enum AxisScroll {
    /// The frame carries no scroll motion.
    Nothing,
    /// The continuous value, in logical pixels, scaled to physical pixels.
    Pixels,
    /// High-resolution wheel steps `(x, y)`, 120 to a detent, as line deltas.
    Steps120(i32, i32),
    /// Discrete detent counts `(x, y)`, as line deltas.
    Detents(i32, i32),
}

/// The scroll a frame yields, given its source, its summed `value120` and
/// `discrete` steps, and whether its continuous value is non-zero.
pub open spec fn axis_scroll(
    source: Option<AxisSource>,
    value120: (i32, i32),
    discrete: (i32, i32),
    has_value: bool,
) -> AxisScroll {
    if source == Some(AxisSource::Finger) || source == Some(AxisSource::Continuous) {
        if has_value {
            AxisScroll::Pixels
        } else {
            AxisScroll::Nothing
        }
    } else if value120.0 != 0 || value120.1 != 0 {
        AxisScroll::Steps120(value120.0, value120.1)
    } else if discrete.0 != 0 || discrete.1 != 0 {
        AxisScroll::Detents(discrete.0, discrete.1)
    } else if has_value {
        AxisScroll::Pixels
    } else {
        AxisScroll::Nothing
    }
}

/// Decide how one `wl_pointer` frame's accumulated scroll is reported.
///
/// Finger and continuous sources scroll by pixels when the continuous value
/// is non-zero. Wheel sources (and frames with no source) prefer the
/// high-resolution `value120` steps, then the discrete detent count, and
/// finally the continuous value; a frame with none of these is no scroll.
/// `has_value` says whether either component of the continuous value is
/// non-zero.
pub fn axis_scroll_from_frame(
    source: Option<AxisSource>,
    value120: (i32, i32),
    discrete: (i32, i32),
    has_value: bool,
) -> (r: AxisScroll)
    ensures
        r == axis_scroll(source, value120, discrete, has_value),
{
    match source {
        Some(AxisSource::Finger) | Some(AxisSource::Continuous) => {
            if has_value {
                AxisScroll::Pixels
            } else {
                AxisScroll::Nothing
            }
        },
        _ => {
            let (x120, y120) = value120;
            let (xd, yd) = discrete;
            if x120 != 0 || y120 != 0 {
                AxisScroll::Steps120(x120, y120)
            } else if xd != 0 || yd != 0 {
                AxisScroll::Detents(xd, yd)
            } else if has_value {
                AxisScroll::Pixels
            } else {
                AxisScroll::Nothing
            }
        },
    }
}

/// A scroll decision with its horizontal and vertical parts exchanged.
pub open spec fn swap_axes(scroll: AxisScroll) -> AxisScroll {
    match scroll {
        AxisScroll::Steps120(x, y) => AxisScroll::Steps120(y, x),
        AxisScroll::Detents(x, y) => AxisScroll::Detents(y, x),
        other => other,
    }
}

/// The two axes are treated alike: exchanging the horizontal and vertical
/// parts of a frame's `value120` and `discrete` sums exchanges them in the
/// decision. A step or detent decision carries the frame's sums on both axes
/// unchanged, and carries motion on at least one; a wheel (or sourceless)
/// frame with high-resolution steps on either axis scrolls by exactly those
/// steps.
pub proof fn lemma_axis_scroll_keeps_both_axes(
    source: Option<AxisSource>,
    value120: (i32, i32),
    discrete: (i32, i32),
    has_value: bool,
)
    ensures
        axis_scroll(source, (value120.1, value120.0), (discrete.1, discrete.0), has_value) == swap_axes(
            axis_scroll(source, value120, discrete, has_value),
        ),
        axis_scroll(source, value120, discrete, has_value) matches AxisScroll::Steps120(x, y) ==> x == value120.0
            && y == value120.1 && (x != 0 || y != 0),
        axis_scroll(source, value120, discrete, has_value) matches AxisScroll::Detents(x, y) ==> x == discrete.0
            && y == discrete.1 && (x != 0 || y != 0),
        source != Some(AxisSource::Finger) && source != Some(AxisSource::Continuous) && (value120.0 != 0
            || value120.1 != 0) ==> axis_scroll(source, value120, discrete, has_value) == AxisScroll::Steps120(
            value120.0,
            value120.1,
        ),
{
}

/// How the source matters: finger and continuous frames scroll by pixels
/// whatever their wheel counters say, and alike; a frame with no source is
/// decided as a wheel frame, and so is a tilting-wheel frame. Pixels are
/// chosen only for a non-zero continuous value, and a frame with a non-zero
/// continuous value always scrolls. A wheel frame without high-resolution
/// steps but with detents scrolls by exactly those detents.
pub proof fn lemma_axis_scroll_by_source(
    source: Option<AxisSource>,
    value120: (i32, i32),
    discrete: (i32, i32),
    has_value: bool,
)
    ensures
        axis_scroll(Some(AxisSource::Finger), value120, discrete, has_value) == axis_scroll(
            Some(AxisSource::Finger),
            (0, 0),
            (0, 0),
            has_value,
        ),
        axis_scroll(Some(AxisSource::Continuous), value120, discrete, has_value) == axis_scroll(
            Some(AxisSource::Finger),
            value120,
            discrete,
            has_value,
        ),
        axis_scroll(None, value120, discrete, has_value) == axis_scroll(Some(AxisSource::Wheel), value120, discrete, has_value),
        axis_scroll(Some(AxisSource::WheelTilt), value120, discrete, has_value) == axis_scroll(
            Some(AxisSource::Wheel),
            value120,
            discrete,
            has_value,
        ),
        axis_scroll(source, value120, discrete, has_value) == AxisScroll::Pixels ==> has_value,
        has_value ==> axis_scroll(source, value120, discrete, has_value) != AxisScroll::Nothing,
        axis_scroll(source, value120, discrete, has_value) == AxisScroll::Nothing ==> !has_value,
        !has_value && value120 == (0i32, 0i32) && discrete == (0i32, 0i32) ==> axis_scroll(source, value120, discrete, has_value)
            == AxisScroll::Nothing,
        source == Some(AxisSource::Wheel) && value120 == (0i32, 0i32) && discrete != (0i32, 0i32) ==> axis_scroll(
            source,
            value120,
            discrete,
            has_value,
        ) == AxisScroll::Detents(discrete.0, discrete.1),
{
}

/// Offset added to a platform pointer identifier so that it never collides
/// with the primary pointer's identifier `1`.
pub const POINTER_ID_OFFSET: u64 = 2;

/// Build a non-primary [`PointerId`] from a platform identifier by adding
/// [`POINTER_ID_OFFSET`]; `None` only when the addition overflows.
pub fn pointer_id_from_platform_id(id: u64) -> (r: Option<PointerId>)
    ensures
        r is None <==> id + POINTER_ID_OFFSET > u64::MAX,
        r matches Some(p) ==> p.value() == id + POINTER_ID_OFFSET && !p.is_primary() && p
            == PointerId::with_value((id + POINTER_ID_OFFSET) as u64),
{
    match id.checked_add(POINTER_ID_OFFSET) {
        Some(n) => PointerId::new(n),
        None => None,
    }
}

/// The [`PointerInfo`] of the primary pointer of the given kind.
pub fn primary_pointer_info(pointer_type: PointerType) -> (r: PointerInfo)
    ensures
        r.is_primary(),
        r.pointer_type == pointer_type,
        r.pointer_id == Some(PointerId::with_value(1)),
{
    PointerInfo { pointer_id: Some(PointerId::primary()), pointer_type }
}

/// The [`PointerInfo`] of a non-primary pointer of the given kind, with its
/// platform identifier offset through [`pointer_id_from_platform_id`].
pub fn pointer_info_from_platform_id(pointer_type: PointerType, id: u64) -> (r: PointerInfo)
    ensures
        r.pointer_type == pointer_type,
        r.pointer_id == (if id + POINTER_ID_OFFSET <= u64::MAX {
            Some(PointerId::with_value((id + POINTER_ID_OFFSET) as u64))
        } else {
            None
        }),
        !r.is_primary(),
        id + POINTER_ID_OFFSET <= u64::MAX ==> (r.pointer_id matches Some(p) && p.value() == id
            + POINTER_ID_OFFSET),
        id + POINTER_ID_OFFSET > u64::MAX ==> r.pointer_id is None,
{
    PointerInfo { pointer_id: pointer_id_from_platform_id(id), pointer_type }
}

/// The [`PointerInfo`] of a touch contact `id` when the primary contact is
/// `primary_id`.
pub open spec fn touch_info(id: u64, primary_id: u64) -> PointerInfo {
    PointerInfo {
        pointer_id: if id == primary_id {
            Some(PointerId::with_value(1))
        } else if id + POINTER_ID_OFFSET <= u64::MAX {
            Some(PointerId::with_value((id + POINTER_ID_OFFSET) as u64))
        } else {
            None
        },
        pointer_type: PointerType::Touch,
    }
}

/// The [`PointerInfo`] of a touch contact: the contact whose id equals
/// `primary_id` is the primary pointer, every other one is offset through
/// [`pointer_info_from_platform_id`].
pub fn touch_pointer_info(id: u64, primary_id: u64) -> (r: PointerInfo)
    ensures
        r == touch_info(id, primary_id),
        r.pointer_type == PointerType::Touch,
        r.is_primary() <==> id == primary_id,
        id != primary_id && id + POINTER_ID_OFFSET <= u64::MAX ==> (r.pointer_id matches Some(p)
            && p.value() == id + POINTER_ID_OFFSET),
        id != primary_id && id + POINTER_ID_OFFSET > u64::MAX ==> r.pointer_id is None,
{
    if id == primary_id {
        primary_pointer_info(PointerType::Touch)
    } else {
        pointer_info_from_platform_id(PointerType::Touch, id)
    }
}

/// Build a modifier set from the Control, Alt, Shift and Meta states; no lock
/// state and no Alt Graph is set.
pub fn modifiers_from_bools(ctrl: bool, alt: bool, shift: bool, meta: bool) -> (m: Modifiers)
    ensures
        m == (Modifiers {
            control: ctrl,
            alt,
            shift,
            meta,
            caps_lock: false,
            num_lock: false,
            alt_graph: false,
        }),
{
    let mut m = Modifiers::empty();
    if ctrl {
        m.control = true;
    }
    if alt {
        m.alt = true;
    }
    if shift {
        m.shift = true;
    }
    if meta {
        m.meta = true;
    }
    m
}

/// Build a modifier set from the individually active XKB modifiers: the four
/// of [`modifiers_from_bools`] plus Caps Lock, Num Lock and Alt Graph.
pub fn modifiers_from_active_mods(
    ctrl: bool,
    alt: bool,
    shift: bool,
    meta: bool,
    caps_lock: bool,
    num_lock: bool,
    alt_graph: bool,
) -> (m: Modifiers)
    ensures
        m == (Modifiers { control: ctrl, alt, shift, meta, caps_lock, num_lock, alt_graph }),
{
    let mut m = modifiers_from_bools(ctrl, alt, shift, meta);
    if caps_lock {
        m.caps_lock = true;
    }
    if num_lock {
        m.num_lock = true;
    }
    if alt_graph {
        m.alt_graph = true;
    }
    m
}

/// The physical key an evdev `KEY_*` scancode stands for on a standard PC
/// keyboard, independent of layout; scancodes with no standard key are
/// [`Code::Unidentified`].
pub open spec fn evdev_code(scancode: u32) -> Code {
    match scancode {
        1 => Code::Escape,
        2 => Code::Digit1,
        3 => Code::Digit2,
        4 => Code::Digit3,
        5 => Code::Digit4,
        6 => Code::Digit5,
        7 => Code::Digit6,
        8 => Code::Digit7,
        9 => Code::Digit8,
        10 => Code::Digit9,
        11 => Code::Digit0,
        12 => Code::Minus,
        13 => Code::Equal,
        14 => Code::Backspace,
        15 => Code::Tab,
        16 => Code::KeyQ,
        17 => Code::KeyW,
        18 => Code::KeyE,
        19 => Code::KeyR,
        20 => Code::KeyT,
        21 => Code::KeyY,
        22 => Code::KeyU,
        23 => Code::KeyI,
        24 => Code::KeyO,
        25 => Code::KeyP,
        26 => Code::BracketLeft,
        27 => Code::BracketRight,
        28 => Code::Enter,
        29 => Code::ControlLeft,
        30 => Code::KeyA,
        31 => Code::KeyS,
        32 => Code::KeyD,
        33 => Code::KeyF,
        34 => Code::KeyG,
        35 => Code::KeyH,
        36 => Code::KeyJ,
        37 => Code::KeyK,
        38 => Code::KeyL,
        39 => Code::Semicolon,
        40 => Code::Quote,
        41 => Code::Backquote,
        42 => Code::ShiftLeft,
        43 => Code::Backslash,
        44 => Code::KeyZ,
        45 => Code::KeyX,
        46 => Code::KeyC,
        47 => Code::KeyV,
        48 => Code::KeyB,
        49 => Code::KeyN,
        50 => Code::KeyM,
        51 => Code::Comma,
        52 => Code::Period,
        53 => Code::Slash,
        54 => Code::ShiftRight,
        55 => Code::NumpadMultiply,
        56 => Code::AltLeft,
        57 => Code::Space,
        58 => Code::CapsLock,
        59 => Code::F1,
        60 => Code::F2,
        61 => Code::F3,
        62 => Code::F4,
        63 => Code::F5,
        64 => Code::F6,
        65 => Code::F7,
        66 => Code::F8,
        67 => Code::F9,
        68 => Code::F10,
        69 => Code::NumLock,
        70 => Code::ScrollLock,
        71 => Code::Numpad7,
        72 => Code::Numpad8,
        73 => Code::Numpad9,
        74 => Code::NumpadSubtract,
        75 => Code::Numpad4,
        76 => Code::Numpad5,
        77 => Code::Numpad6,
        78 => Code::NumpadAdd,
        79 => Code::Numpad1,
        80 => Code::Numpad2,
        81 => Code::Numpad3,
        82 => Code::Numpad0,
        83 => Code::NumpadDecimal,
        85 => Code::Lang5,
        86 => Code::IntlBackslash,
        87 => Code::F11,
        88 => Code::F12,
        89 => Code::IntlRo,
        90 => Code::Lang3,
        91 => Code::Lang4,
        92 => Code::Convert,
        93 => Code::KanaMode,
        94 => Code::NonConvert,
        96 => Code::NumpadEnter,
        97 => Code::ControlRight,
        98 => Code::NumpadDivide,
        99 => Code::PrintScreen,
        100 => Code::AltRight,
        102 => Code::Home,
        103 => Code::ArrowUp,
        104 => Code::PageUp,
        105 => Code::ArrowLeft,
        106 => Code::ArrowRight,
        107 => Code::End,
        108 => Code::ArrowDown,
        109 => Code::PageDown,
        110 => Code::Insert,
        111 => Code::Delete,
        113 => Code::AudioVolumeMute,
        114 => Code::AudioVolumeDown,
        115 => Code::AudioVolumeUp,
        117 => Code::NumpadEqual,
        119 => Code::Pause,
        121 => Code::NumpadComma,
        122 => Code::Lang1,
        123 => Code::Lang2,
        124 => Code::IntlYen,
        125 => Code::MetaLeft,
        126 => Code::MetaRight,
        127 => Code::ContextMenu,
        163 => Code::MediaTrackNext,
        164 => Code::MediaPlayPause,
        165 => Code::MediaTrackPrevious,
        166 => Code::MediaStop,
        183 => Code::F13,
        184 => Code::F14,
        185 => Code::F15,
        186 => Code::F16,
        187 => Code::F17,
        188 => Code::F18,
        189 => Code::F19,
        190 => Code::F20,
        191 => Code::F21,
        192 => Code::F22,
        193 => Code::F23,
        194 => Code::F24,
        _ => Code::Unidentified,
    }
}

/// The evdev `KEY_*` scancode of a physical key, as linux/input-event-codes.h
/// numbers it, for the keys a standard PC keyboard has; `None` for the others.
pub open spec fn evdev_scancode_of(code: Code) -> Option<u32> {
    match code {
        Code::Backquote => Some(41),
        Code::Backslash => Some(43),
        Code::BracketLeft => Some(26),
        Code::BracketRight => Some(27),
        Code::Comma => Some(51),
        Code::Digit0 => Some(11),
        Code::Digit1 => Some(2),
        Code::Digit2 => Some(3),
        Code::Digit3 => Some(4),
        Code::Digit4 => Some(5),
        Code::Digit5 => Some(6),
        Code::Digit6 => Some(7),
        Code::Digit7 => Some(8),
        Code::Digit8 => Some(9),
        Code::Digit9 => Some(10),
        Code::Equal => Some(13),
        Code::IntlBackslash => Some(86),
        Code::IntlRo => Some(89),
        Code::IntlYen => Some(124),
        Code::KeyA => Some(30),
        Code::KeyB => Some(48),
        Code::KeyC => Some(46),
        Code::KeyD => Some(32),
        Code::KeyE => Some(18),
        Code::KeyF => Some(33),
        Code::KeyG => Some(34),
        Code::KeyH => Some(35),
        Code::KeyI => Some(23),
        Code::KeyJ => Some(36),
        Code::KeyK => Some(37),
        Code::KeyL => Some(38),
        Code::KeyM => Some(50),
        Code::KeyN => Some(49),
        Code::KeyO => Some(24),
        Code::KeyP => Some(25),
        Code::KeyQ => Some(16),
        Code::KeyR => Some(19),
        Code::KeyS => Some(31),
        Code::KeyT => Some(20),
        Code::KeyU => Some(22),
        Code::KeyV => Some(47),
        Code::KeyW => Some(17),
        Code::KeyX => Some(45),
        Code::KeyY => Some(21),
        Code::KeyZ => Some(44),
        Code::Minus => Some(12),
        Code::Period => Some(52),
        Code::Quote => Some(40),
        Code::Semicolon => Some(39),
        Code::Slash => Some(53),
        Code::AltLeft => Some(56),
        Code::AltRight => Some(100),
        Code::Backspace => Some(14),
        Code::CapsLock => Some(58),
        Code::ContextMenu => Some(127),
        Code::ControlLeft => Some(29),
        Code::ControlRight => Some(97),
        Code::Enter => Some(28),
        Code::MetaLeft => Some(125),
        Code::MetaRight => Some(126),
        Code::ShiftLeft => Some(42),
        Code::ShiftRight => Some(54),
        Code::Space => Some(57),
        Code::Tab => Some(15),
        Code::Convert => Some(92),
        Code::KanaMode => Some(93),
        Code::Lang1 => Some(122),
        Code::Lang2 => Some(123),
        Code::Lang3 => Some(90),
        Code::Lang4 => Some(91),
        Code::Lang5 => Some(85),
        Code::NonConvert => Some(94),
        Code::Delete => Some(111),
        Code::End => Some(107),
        Code::Home => Some(102),
        Code::Insert => Some(110),
        Code::PageDown => Some(109),
        Code::PageUp => Some(104),
        Code::ArrowDown => Some(108),
        Code::ArrowLeft => Some(105),
        Code::ArrowRight => Some(106),
        Code::ArrowUp => Some(103),
        Code::NumLock => Some(69),
        Code::Numpad0 => Some(82),
        Code::Numpad1 => Some(79),
        Code::Numpad2 => Some(80),
        Code::Numpad3 => Some(81),
        Code::Numpad4 => Some(75),
        Code::Numpad5 => Some(76),
        Code::Numpad6 => Some(77),
        Code::Numpad7 => Some(71),
        Code::Numpad8 => Some(72),
        Code::Numpad9 => Some(73),
        Code::NumpadAdd => Some(78),
        Code::NumpadComma => Some(121),
        Code::NumpadDecimal => Some(83),
        Code::NumpadDivide => Some(98),
        Code::NumpadEnter => Some(96),
        Code::NumpadEqual => Some(117),
        Code::NumpadMultiply => Some(55),
        Code::NumpadSubtract => Some(74),
        Code::Escape => Some(1),
        Code::PrintScreen => Some(99),
        Code::ScrollLock => Some(70),
        Code::Pause => Some(119),
        Code::MediaPlayPause => Some(164),
        Code::MediaStop => Some(166),
        Code::MediaTrackNext => Some(163),
        Code::MediaTrackPrevious => Some(165),
        Code::AudioVolumeDown => Some(114),
        Code::AudioVolumeMute => Some(113),
        Code::AudioVolumeUp => Some(115),
        Code::F1 => Some(59),
        Code::F2 => Some(60),
        Code::F3 => Some(61),
        Code::F4 => Some(62),
        Code::F5 => Some(63),
        Code::F6 => Some(64),
        Code::F7 => Some(65),
        Code::F8 => Some(66),
        Code::F9 => Some(67),
        Code::F10 => Some(68),
        Code::F11 => Some(87),
        Code::F12 => Some(88),
        Code::F13 => Some(183),
        Code::F14 => Some(184),
        Code::F15 => Some(185),
        Code::F16 => Some(186),
        Code::F17 => Some(187),
        Code::F18 => Some(188),
        Code::F19 => Some(189),
        Code::F20 => Some(190),
        Code::F21 => Some(191),
        Code::F22 => Some(192),
        Code::F23 => Some(193),
        Code::F24 => Some(194),
        _ => None,
    }
}

/// The digit key `Digit0` to `Digit9` for `n` from 0 to 9.
pub open spec fn digit_code(n: int) -> Code {
    if n == 0 { Code::Digit0 } else if n == 1 { Code::Digit1 } else if n == 2 { Code::Digit2 }
    else if n == 3 { Code::Digit3 } else if n == 4 { Code::Digit4 } else if n == 5 { Code::Digit5 }
    else if n == 6 { Code::Digit6 } else if n == 7 { Code::Digit7 } else if n == 8 { Code::Digit8 }
    else { Code::Digit9 }
}

/// The function key `F1` to `F24` for `n` from 1 to 24.
pub open spec fn function_code(n: int) -> Code {
    if n == 1 { Code::F1 } else if n == 2 { Code::F2 } else if n == 3 { Code::F3 } else if n == 4 { Code::F4 }
    else if n == 5 { Code::F5 } else if n == 6 { Code::F6 } else if n == 7 { Code::F7 } else if n == 8 { Code::F8 }
    else if n == 9 { Code::F9 } else if n == 10 { Code::F10 } else if n == 11 { Code::F11 } else if n == 12 { Code::F12 }
    else if n == 13 { Code::F13 } else if n == 14 { Code::F14 } else if n == 15 { Code::F15 } else if n == 16 { Code::F16 }
    else if n == 17 { Code::F17 } else if n == 18 { Code::F18 } else if n == 19 { Code::F19 } else if n == 20 { Code::F20 }
    else if n == 21 { Code::F21 } else if n == 22 { Code::F22 } else if n == 23 { Code::F23 } else { Code::F24 }
}

/// Scancodes and physical keys correspond one to one: a scancode that names
/// a key is the key's own `KEY_*` number, and every key with a `KEY_*` number
/// is named by that scancode. So two scancodes never name the same key.
#[verifier::rlimit(40)]
pub proof fn lemma_evdev_code_matches_key_numbers(scancode: u32, code: Code)
    ensures
        evdev_code(scancode) != Code::Unidentified ==> evdev_scancode_of(evdev_code(scancode)) == Some(scancode),
        evdev_scancode_of(code) matches Some(s) ==> evdev_code(s) == code,
{
}

/// Two scancodes that name the same key are the same scancode.
pub proof fn lemma_evdev_code_injective(a: u32, b: u32)
    ensures
        evdev_code(a) == evdev_code(b) && evdev_code(a) != Code::Unidentified ==> a == b,
{
    lemma_evdev_code_matches_key_numbers(a, evdev_code(a));
    lemma_evdev_code_matches_key_numbers(b, evdev_code(b));
}

/// The digit row and the function keys run in order: `KEY_1` to `KEY_9`
/// (scancodes 2 to 10) are `Digit1` to `Digit9` and `KEY_0` (11) is `Digit0`;
/// `KEY_F1` to `KEY_F10` (59 to 68) are `F1` to `F10`, `KEY_F11` and
/// `KEY_F12` (87, 88) are `F11` and `F12`, and `KEY_F13` to `KEY_F24` (183 to
/// 194) are `F13` to `F24`.
pub proof fn lemma_evdev_rows_in_order(scancode: u32)
    ensures
        2 <= scancode <= 11 ==> evdev_code(scancode) == digit_code((scancode - 1) % 10),
        59 <= scancode <= 68 ==> evdev_code(scancode) == function_code(scancode - 58),
        87 <= scancode <= 88 ==> evdev_code(scancode) == function_code(scancode - 76),
        183 <= scancode <= 194 ==> evdev_code(scancode) == function_code(scancode - 170),
{
}

/// Map an evdev keyboard scancode (as `wl_keyboard` reports it) to its
/// physical [`Code`]. The Linux left and right meta keys are the W3C
/// `MetaLeft`/`MetaRight`; scancodes with no standard physical key, including
/// the rarer multimedia and power keys, are [`Code::Unidentified`].
pub fn code_from_evdev_scancode(scancode: u32) -> (c: Code)
    ensures
        c == evdev_code(scancode),
{
    match scancode {
        1 => Code::Escape,
        2 => Code::Digit1,
        3 => Code::Digit2,
        4 => Code::Digit3,
        5 => Code::Digit4,
        6 => Code::Digit5,
        7 => Code::Digit6,
        8 => Code::Digit7,
        9 => Code::Digit8,
        10 => Code::Digit9,
        11 => Code::Digit0,
        12 => Code::Minus,
        13 => Code::Equal,
        14 => Code::Backspace,
        15 => Code::Tab,
        16 => Code::KeyQ,
        17 => Code::KeyW,
        18 => Code::KeyE,
        19 => Code::KeyR,
        20 => Code::KeyT,
        21 => Code::KeyY,
        22 => Code::KeyU,
        23 => Code::KeyI,
        24 => Code::KeyO,
        25 => Code::KeyP,
        26 => Code::BracketLeft,
        27 => Code::BracketRight,
        28 => Code::Enter,
        29 => Code::ControlLeft,
        30 => Code::KeyA,
        31 => Code::KeyS,
        32 => Code::KeyD,
        33 => Code::KeyF,
        34 => Code::KeyG,
        35 => Code::KeyH,
        36 => Code::KeyJ,
        37 => Code::KeyK,
        38 => Code::KeyL,
        39 => Code::Semicolon,
        40 => Code::Quote,
        41 => Code::Backquote,
        42 => Code::ShiftLeft,
        43 => Code::Backslash,
        44 => Code::KeyZ,
        45 => Code::KeyX,
        46 => Code::KeyC,
        47 => Code::KeyV,
        48 => Code::KeyB,
        49 => Code::KeyN,
        50 => Code::KeyM,
        51 => Code::Comma,
        52 => Code::Period,
        53 => Code::Slash,
        54 => Code::ShiftRight,
        55 => Code::NumpadMultiply,
        56 => Code::AltLeft,
        57 => Code::Space,
        58 => Code::CapsLock,
        59 => Code::F1,
        60 => Code::F2,
        61 => Code::F3,
        62 => Code::F4,
        63 => Code::F5,
        64 => Code::F6,
        65 => Code::F7,
        66 => Code::F8,
        67 => Code::F9,
        68 => Code::F10,
        69 => Code::NumLock,
        70 => Code::ScrollLock,
        71 => Code::Numpad7,
        72 => Code::Numpad8,
        73 => Code::Numpad9,
        74 => Code::NumpadSubtract,
        75 => Code::Numpad4,
        76 => Code::Numpad5,
        77 => Code::Numpad6,
        78 => Code::NumpadAdd,
        79 => Code::Numpad1,
        80 => Code::Numpad2,
        81 => Code::Numpad3,
        82 => Code::Numpad0,
        83 => Code::NumpadDecimal,
        85 => Code::Lang5,
        86 => Code::IntlBackslash,
        87 => Code::F11,
        88 => Code::F12,
        89 => Code::IntlRo,
        90 => Code::Lang3,
        91 => Code::Lang4,
        92 => Code::Convert,
        93 => Code::KanaMode,
        94 => Code::NonConvert,
        96 => Code::NumpadEnter,
        97 => Code::ControlRight,
        98 => Code::NumpadDivide,
        99 => Code::PrintScreen,
        100 => Code::AltRight,
        102 => Code::Home,
        103 => Code::ArrowUp,
        104 => Code::PageUp,
        105 => Code::ArrowLeft,
        106 => Code::ArrowRight,
        107 => Code::End,
        108 => Code::ArrowDown,
        109 => Code::PageDown,
        110 => Code::Insert,
        111 => Code::Delete,
        113 => Code::AudioVolumeMute,
        114 => Code::AudioVolumeDown,
        115 => Code::AudioVolumeUp,
        117 => Code::NumpadEqual,
        119 => Code::Pause,
        121 => Code::NumpadComma,
        122 => Code::Lang1,
        123 => Code::Lang2,
        124 => Code::IntlYen,
        125 => Code::MetaLeft,
        126 => Code::MetaRight,
        127 => Code::ContextMenu,
        163 => Code::MediaTrackNext,
        164 => Code::MediaPlayPause,
        165 => Code::MediaTrackPrevious,
        166 => Code::MediaStop,
        183 => Code::F13,
        184 => Code::F14,
        185 => Code::F15,
        186 => Code::F16,
        187 => Code::F17,
        188 => Code::F18,
        189 => Code::F19,
        190 => Code::F20,
        191 => Code::F21,
        192 => Code::F22,
        193 => Code::F23,
        194 => Code::F24,
        _ => Code::Unidentified,
    }
}

/// The `ISO_LEVEL3_SHIFT` keysym.
pub const KEY_ISO_LEVEL3_SHIFT: u32 = 0xfe03;
/// The `ISO_LEVEL3_LATCH` keysym.
pub const KEY_ISO_LEVEL3_LATCH: u32 = 0xfe04;
/// The `ISO_LEVEL3_LOCK` keysym.
pub const KEY_ISO_LEVEL3_LOCK: u32 = 0xfe05;
/// The `ISO_NEXT_GROUP` keysym.
pub const KEY_ISO_NEXT_GROUP: u32 = 0xfe08;
/// The `ISO_PREV_GROUP` keysym.
pub const KEY_ISO_PREV_GROUP: u32 = 0xfe0a;
/// The `ISO_FIRST_GROUP` keysym.
pub const KEY_ISO_FIRST_GROUP: u32 = 0xfe0c;
/// The `ISO_LAST_GROUP` keysym.
pub const KEY_ISO_LAST_GROUP: u32 = 0xfe0e;
/// The `ISO_LEFT_TAB` keysym.
pub const KEY_ISO_LEFT_TAB: u32 = 0xfe20;
/// The `ISO_ENTER` keysym.
pub const KEY_ISO_ENTER: u32 = 0xfe34;
/// The `BACKSPACE` keysym.
pub const KEY_BACKSPACE: u32 = 0xff08;
/// The `TAB` keysym.
pub const KEY_TAB: u32 = 0xff09;
/// The `CLEAR` keysym.
pub const KEY_CLEAR: u32 = 0xff0b;
/// The `RETURN` keysym.
pub const KEY_RETURN: u32 = 0xff0d;
/// The `PAUSE` keysym.
pub const KEY_PAUSE: u32 = 0xff13;
/// The `SCROLL_LOCK` keysym.
pub const KEY_SCROLL_LOCK: u32 = 0xff14;
/// The `SYS_REQ` keysym.
pub const KEY_SYS_REQ: u32 = 0xff15;
/// The `ESCAPE` keysym.
pub const KEY_ESCAPE: u32 = 0xff1b;
/// The `MULTI_KEY` keysym.
pub const KEY_MULTI_KEY: u32 = 0xff20;
/// The `KANJI` keysym.
pub const KEY_KANJI: u32 = 0xff21;
/// The `MUHENKAN` keysym.
pub const KEY_MUHENKAN: u32 = 0xff22;
/// The `HENKAN_MODE` keysym.
pub const KEY_HENKAN_MODE: u32 = 0xff23;
/// The `ROMAJI` keysym.
pub const KEY_ROMAJI: u32 = 0xff24;
/// The `HIRAGANA` keysym.
pub const KEY_HIRAGANA: u32 = 0xff25;
/// The `KATAKANA` keysym.
pub const KEY_KATAKANA: u32 = 0xff26;
/// The `HIRAGANA_KATAKANA` keysym.
pub const KEY_HIRAGANA_KATAKANA: u32 = 0xff27;
/// The `ZENKAKU` keysym.
pub const KEY_ZENKAKU: u32 = 0xff28;
/// The `HANKAKU` keysym.
pub const KEY_HANKAKU: u32 = 0xff29;
/// The `ZENKAKU_HANKAKU` keysym.
pub const KEY_ZENKAKU_HANKAKU: u32 = 0xff2a;
/// The `KANA_LOCK` keysym.
pub const KEY_KANA_LOCK: u32 = 0xff2d;
/// The `EISU_TOGGLE` keysym.
pub const KEY_EISU_TOGGLE: u32 = 0xff30;
/// The `HANGUL` keysym.
pub const KEY_HANGUL: u32 = 0xff31;
/// The `HANGUL_HANJA` keysym.
pub const KEY_HANGUL_HANJA: u32 = 0xff34;
/// The `HOME` keysym.
pub const KEY_HOME: u32 = 0xff50;
/// The `LEFT` keysym.
pub const KEY_LEFT: u32 = 0xff51;
/// The `UP` keysym.
pub const KEY_UP: u32 = 0xff52;
/// The `RIGHT` keysym.
pub const KEY_RIGHT: u32 = 0xff53;
/// The `DOWN` keysym.
pub const KEY_DOWN: u32 = 0xff54;
/// The `PAGE_UP` keysym.
pub const KEY_PAGE_UP: u32 = 0xff55;
/// The `PAGE_DOWN` keysym.
pub const KEY_PAGE_DOWN: u32 = 0xff56;
/// The `END` keysym.
pub const KEY_END: u32 = 0xff57;
/// The `SELECT` keysym.
pub const KEY_SELECT: u32 = 0xff60;
/// The `PRINT` keysym.
pub const KEY_PRINT: u32 = 0xff61;
/// The `EXECUTE` keysym.
pub const KEY_EXECUTE: u32 = 0xff62;
/// The `INSERT` keysym.
pub const KEY_INSERT: u32 = 0xff63;
/// The `UNDO` keysym.
pub const KEY_UNDO: u32 = 0xff65;
/// The `REDO` keysym.
pub const KEY_REDO: u32 = 0xff66;
/// The `MENU` keysym.
pub const KEY_MENU: u32 = 0xff67;
/// The `FIND` keysym.
pub const KEY_FIND: u32 = 0xff68;
/// The `CANCEL` keysym.
pub const KEY_CANCEL: u32 = 0xff69;
/// The `HELP` keysym.
pub const KEY_HELP: u32 = 0xff6a;
/// The `BREAK` keysym.
pub const KEY_BREAK: u32 = 0xff6b;
/// The `MODE_SWITCH` keysym.
pub const KEY_MODE_SWITCH: u32 = 0xff7e;
/// The `NUM_LOCK` keysym.
pub const KEY_NUM_LOCK: u32 = 0xff7f;
/// The `KP_TAB` keysym.
pub const KEY_KP_TAB: u32 = 0xff89;
/// The `KP_ENTER` keysym.
pub const KEY_KP_ENTER: u32 = 0xff8d;
/// The `KP_F1` keysym.
pub const KEY_KP_F1: u32 = 0xff91;
/// The `KP_F2` keysym.
pub const KEY_KP_F2: u32 = 0xff92;
/// The `KP_F3` keysym.
pub const KEY_KP_F3: u32 = 0xff93;
/// The `KP_F4` keysym.
pub const KEY_KP_F4: u32 = 0xff94;
/// The `KP_HOME` keysym.
pub const KEY_KP_HOME: u32 = 0xff95;
/// The `KP_LEFT` keysym.
pub const KEY_KP_LEFT: u32 = 0xff96;
/// The `KP_UP` keysym.
pub const KEY_KP_UP: u32 = 0xff97;
/// The `KP_RIGHT` keysym.
pub const KEY_KP_RIGHT: u32 = 0xff98;
/// The `KP_DOWN` keysym.
pub const KEY_KP_DOWN: u32 = 0xff99;
/// The `KP_PAGE_UP` keysym.
pub const KEY_KP_PAGE_UP: u32 = 0xff9a;
/// The `KP_PAGE_DOWN` keysym.
pub const KEY_KP_PAGE_DOWN: u32 = 0xff9b;
/// The `KP_END` keysym.
pub const KEY_KP_END: u32 = 0xff9c;
/// The `KP_INSERT` keysym.
pub const KEY_KP_INSERT: u32 = 0xff9e;
/// The `KP_DELETE` keysym.
pub const KEY_KP_DELETE: u32 = 0xff9f;
/// The `F1` keysym.
pub const KEY_F1: u32 = 0xffbe;
/// The `F2` keysym.
pub const KEY_F2: u32 = 0xffbf;
/// The `F3` keysym.
pub const KEY_F3: u32 = 0xffc0;
/// The `F4` keysym.
pub const KEY_F4: u32 = 0xffc1;
/// The `F5` keysym.
pub const KEY_F5: u32 = 0xffc2;
/// The `F6` keysym.
pub const KEY_F6: u32 = 0xffc3;
/// The `F7` keysym.
pub const KEY_F7: u32 = 0xffc4;
/// The `F8` keysym.
pub const KEY_F8: u32 = 0xffc5;
/// The `F9` keysym.
pub const KEY_F9: u32 = 0xffc6;
/// The `F10` keysym.
pub const KEY_F10: u32 = 0xffc7;
/// The `F11` keysym.
pub const KEY_F11: u32 = 0xffc8;
/// The `F12` keysym.
pub const KEY_F12: u32 = 0xffc9;
/// The `F13` keysym.
pub const KEY_F13: u32 = 0xffca;
/// The `F14` keysym.
pub const KEY_F14: u32 = 0xffcb;
/// The `F15` keysym.
pub const KEY_F15: u32 = 0xffcc;
/// The `F16` keysym.
pub const KEY_F16: u32 = 0xffcd;
/// The `F17` keysym.
pub const KEY_F17: u32 = 0xffce;
/// The `F18` keysym.
pub const KEY_F18: u32 = 0xffcf;
/// The `F19` keysym.
pub const KEY_F19: u32 = 0xffd0;
/// The `F20` keysym.
pub const KEY_F20: u32 = 0xffd1;
/// The `F21` keysym.
pub const KEY_F21: u32 = 0xffd2;
/// The `F22` keysym.
pub const KEY_F22: u32 = 0xffd3;
/// The `F23` keysym.
pub const KEY_F23: u32 = 0xffd4;
/// The `F24` keysym.
pub const KEY_F24: u32 = 0xffd5;
/// The `F25` keysym.
pub const KEY_F25: u32 = 0xffd6;
/// The `F26` keysym.
pub const KEY_F26: u32 = 0xffd7;
/// The `F27` keysym.
pub const KEY_F27: u32 = 0xffd8;
/// The `F28` keysym.
pub const KEY_F28: u32 = 0xffd9;
/// The `F29` keysym.
pub const KEY_F29: u32 = 0xffda;
/// The `F30` keysym.
pub const KEY_F30: u32 = 0xffdb;
/// The `F31` keysym.
pub const KEY_F31: u32 = 0xffdc;
/// The `F32` keysym.
pub const KEY_F32: u32 = 0xffdd;
/// The `F33` keysym.
pub const KEY_F33: u32 = 0xffde;
/// The `F34` keysym.
pub const KEY_F34: u32 = 0xffdf;
/// The `F35` keysym.
pub const KEY_F35: u32 = 0xffe0;
/// The `SHIFT_L` keysym.
pub const KEY_SHIFT_L: u32 = 0xffe1;
/// The `SHIFT_R` keysym.
pub const KEY_SHIFT_R: u32 = 0xffe2;
/// The `CONTROL_L` keysym.
pub const KEY_CONTROL_L: u32 = 0xffe3;
/// The `CONTROL_R` keysym.
pub const KEY_CONTROL_R: u32 = 0xffe4;
/// The `CAPS_LOCK` keysym.
pub const KEY_CAPS_LOCK: u32 = 0xffe5;
/// The `META_L` keysym.
pub const KEY_META_L: u32 = 0xffe7;
/// The `META_R` keysym.
pub const KEY_META_R: u32 = 0xffe8;
/// The `ALT_L` keysym.
pub const KEY_ALT_L: u32 = 0xffe9;
/// The `ALT_R` keysym.
pub const KEY_ALT_R: u32 = 0xffea;
/// The `SUPER_L` keysym.
pub const KEY_SUPER_L: u32 = 0xffeb;
/// The `SUPER_R` keysym.
pub const KEY_SUPER_R: u32 = 0xffec;
/// The `HYPER_L` keysym.
pub const KEY_HYPER_L: u32 = 0xffed;
/// The `HYPER_R` keysym.
pub const KEY_HYPER_R: u32 = 0xffee;
/// The `DELETE` keysym.
pub const KEY_DELETE: u32 = 0xffff;

/// The named key an XKB keysym stands for, if it names a non-typing key.
pub open spec fn keysym_named_key(keysym: u32) -> Option<NamedKey> {
    match keysym {
        0xff08 => Some(NamedKey::Backspace),
        0xff09 | 0xff89 | 0xfe20 => Some(NamedKey::Tab),
        0xff0b => Some(NamedKey::Clear),
        0xff0d | 0xff8d | 0xfe34 => Some(NamedKey::Enter),
        0xff13 | 0xff6b => Some(NamedKey::Pause),
        0xff14 => Some(NamedKey::ScrollLock),
        0xff15 | 0xff61 => Some(NamedKey::PrintScreen),
        0xff1b => Some(NamedKey::Escape),
        0xffff | 0xff9f => Some(NamedKey::Delete),
        0xff20 => Some(NamedKey::Compose),
        0xff7e => Some(NamedKey::ModeChange),
        0xfe08 => Some(NamedKey::GroupNext),
        0xfe0a => Some(NamedKey::GroupPrevious),
        0xfe0c => Some(NamedKey::GroupFirst),
        0xfe0e => Some(NamedKey::GroupLast),
        0xff21 => Some(NamedKey::KanjiMode),
        0xff22 => Some(NamedKey::NonConvert),
        0xff23 => Some(NamedKey::Convert),
        0xff24 => Some(NamedKey::Romaji),
        0xff25 => Some(NamedKey::Hiragana),
        0xff26 => Some(NamedKey::Katakana),
        0xff27 => Some(NamedKey::HiraganaKatakana),
        0xff28 => Some(NamedKey::Zenkaku),
        0xff29 => Some(NamedKey::Hankaku),
        0xff2a => Some(NamedKey::ZenkakuHankaku),
        0xff2d => Some(NamedKey::KanaMode),
        0xff30 => Some(NamedKey::Alphanumeric),
        0xff31 => Some(NamedKey::HangulMode),
        0xff34 => Some(NamedKey::HanjaMode),
        0xff50 | 0xff95 => Some(NamedKey::Home),
        0xff51 | 0xff96 => Some(NamedKey::ArrowLeft),
        0xff52 | 0xff97 => Some(NamedKey::ArrowUp),
        0xff53 | 0xff98 => Some(NamedKey::ArrowRight),
        0xff54 | 0xff99 => Some(NamedKey::ArrowDown),
        0xff55 | 0xff9a => Some(NamedKey::PageUp),
        0xff56 | 0xff9b => Some(NamedKey::PageDown),
        0xff57 | 0xff9c => Some(NamedKey::End),
        0xff63 | 0xff9e => Some(NamedKey::Insert),
        0xff60 => Some(NamedKey::Select),
        0xff62 => Some(NamedKey::Execute),
        0xff65 => Some(NamedKey::Undo),
        0xff66 => Some(NamedKey::Redo),
        0xff67 => Some(NamedKey::ContextMenu),
        0xff68 => Some(NamedKey::Find),
        0xff69 => Some(NamedKey::Cancel),
        0xff6a => Some(NamedKey::Help),
        0xff7f => Some(NamedKey::NumLock),
        0xffbe | 0xff91 => Some(NamedKey::F1),
        0xffbf | 0xff92 => Some(NamedKey::F2),
        0xffc0 | 0xff93 => Some(NamedKey::F3),
        0xffc1 | 0xff94 => Some(NamedKey::F4),
        0xffc2 => Some(NamedKey::F5),
        0xffc3 => Some(NamedKey::F6),
        0xffc4 => Some(NamedKey::F7),
        0xffc5 => Some(NamedKey::F8),
        0xffc6 => Some(NamedKey::F9),
        0xffc7 => Some(NamedKey::F10),
        0xffc8 => Some(NamedKey::F11),
        0xffc9 => Some(NamedKey::F12),
        0xffca => Some(NamedKey::F13),
        0xffcb => Some(NamedKey::F14),
        0xffcc => Some(NamedKey::F15),
        0xffcd => Some(NamedKey::F16),
        0xffce => Some(NamedKey::F17),
        0xffcf => Some(NamedKey::F18),
        0xffd0 => Some(NamedKey::F19),
        0xffd1 => Some(NamedKey::F20),
        0xffd2 => Some(NamedKey::F21),
        0xffd3 => Some(NamedKey::F22),
        0xffd4 => Some(NamedKey::F23),
        0xffd5 => Some(NamedKey::F24),
        0xffd6 => Some(NamedKey::F25),
        0xffd7 => Some(NamedKey::F26),
        0xffd8 => Some(NamedKey::F27),
        0xffd9 => Some(NamedKey::F28),
        0xffda => Some(NamedKey::F29),
        0xffdb => Some(NamedKey::F30),
        0xffdc => Some(NamedKey::F31),
        0xffdd => Some(NamedKey::F32),
        0xffde => Some(NamedKey::F33),
        0xffdf => Some(NamedKey::F34),
        0xffe0 => Some(NamedKey::F35),
        0xffe1 | 0xffe2 => Some(NamedKey::Shift),
        0xffe3 | 0xffe4 => Some(NamedKey::Control),
        0xffe5 => Some(NamedKey::CapsLock),
        0xffe9 | 0xffea => Some(NamedKey::Alt),
        0xffe7 | 0xffe8 | 0xffeb | 0xffec | 0xffed | 0xffee => Some(NamedKey::Meta),
        0xfe03 | 0xfe04 | 0xfe05 => Some(NamedKey::AltGraph),
        _ => None,
    }
}

/// The keysyms, by their XKB names, that stand for the named key `key`.
pub open spec fn keysym_names(keysym: u32, key: NamedKey) -> bool {
    match key {
        NamedKey::Alt => keysym == KEY_ALT_L || keysym == KEY_ALT_R,
        NamedKey::AltGraph => keysym == KEY_ISO_LEVEL3_SHIFT || keysym == KEY_ISO_LEVEL3_LATCH || keysym == KEY_ISO_LEVEL3_LOCK,
        NamedKey::CapsLock => keysym == KEY_CAPS_LOCK,
        NamedKey::Control => keysym == KEY_CONTROL_L || keysym == KEY_CONTROL_R,
        NamedKey::Meta => keysym == KEY_META_L || keysym == KEY_META_R || keysym == KEY_SUPER_L || keysym == KEY_SUPER_R || keysym == KEY_HYPER_L || keysym == KEY_HYPER_R,
        NamedKey::NumLock => keysym == KEY_NUM_LOCK,
        NamedKey::ScrollLock => keysym == KEY_SCROLL_LOCK,
        NamedKey::Shift => keysym == KEY_SHIFT_L || keysym == KEY_SHIFT_R,
        NamedKey::Enter => keysym == KEY_RETURN || keysym == KEY_KP_ENTER || keysym == KEY_ISO_ENTER,
        NamedKey::Tab => keysym == KEY_TAB || keysym == KEY_KP_TAB || keysym == KEY_ISO_LEFT_TAB,
        NamedKey::ArrowDown => keysym == KEY_DOWN || keysym == KEY_KP_DOWN,
        NamedKey::ArrowLeft => keysym == KEY_LEFT || keysym == KEY_KP_LEFT,
        NamedKey::ArrowRight => keysym == KEY_RIGHT || keysym == KEY_KP_RIGHT,
        NamedKey::ArrowUp => keysym == KEY_UP || keysym == KEY_KP_UP,
        NamedKey::End => keysym == KEY_END || keysym == KEY_KP_END,
        NamedKey::Home => keysym == KEY_HOME || keysym == KEY_KP_HOME,
        NamedKey::PageDown => keysym == KEY_PAGE_DOWN || keysym == KEY_KP_PAGE_DOWN,
        NamedKey::PageUp => keysym == KEY_PAGE_UP || keysym == KEY_KP_PAGE_UP,
        NamedKey::Backspace => keysym == KEY_BACKSPACE,
        NamedKey::Clear => keysym == KEY_CLEAR,
        NamedKey::Delete => keysym == KEY_DELETE || keysym == KEY_KP_DELETE,
        NamedKey::Insert => keysym == KEY_INSERT || keysym == KEY_KP_INSERT,
        NamedKey::Redo => keysym == KEY_REDO,
        NamedKey::Undo => keysym == KEY_UNDO,
        NamedKey::Cancel => keysym == KEY_CANCEL,
        NamedKey::ContextMenu => keysym == KEY_MENU,
        NamedKey::Escape => keysym == KEY_ESCAPE,
        NamedKey::Execute => keysym == KEY_EXECUTE,
        NamedKey::Find => keysym == KEY_FIND,
        NamedKey::Help => keysym == KEY_HELP,
        NamedKey::Pause => keysym == KEY_PAUSE || keysym == KEY_BREAK,
        NamedKey::Select => keysym == KEY_SELECT,
        NamedKey::PrintScreen => keysym == KEY_SYS_REQ || keysym == KEY_PRINT,
        NamedKey::Alphanumeric => keysym == KEY_EISU_TOGGLE,
        NamedKey::Compose => keysym == KEY_MULTI_KEY,
        NamedKey::Convert => keysym == KEY_HENKAN_MODE,
        NamedKey::GroupFirst => keysym == KEY_ISO_FIRST_GROUP,
        NamedKey::GroupLast => keysym == KEY_ISO_LAST_GROUP,
        NamedKey::GroupNext => keysym == KEY_ISO_NEXT_GROUP,
        NamedKey::GroupPrevious => keysym == KEY_ISO_PREV_GROUP,
        NamedKey::ModeChange => keysym == KEY_MODE_SWITCH,
        NamedKey::NonConvert => keysym == KEY_MUHENKAN,
        NamedKey::HangulMode => keysym == KEY_HANGUL,
        NamedKey::HanjaMode => keysym == KEY_HANGUL_HANJA,
        NamedKey::Hankaku => keysym == KEY_HANKAKU,
        NamedKey::Hiragana => keysym == KEY_HIRAGANA,
        NamedKey::HiraganaKatakana => keysym == KEY_HIRAGANA_KATAKANA,
        NamedKey::KanaMode => keysym == KEY_KANA_LOCK,
        NamedKey::KanjiMode => keysym == KEY_KANJI,
        NamedKey::Katakana => keysym == KEY_KATAKANA,
        NamedKey::Romaji => keysym == KEY_ROMAJI,
        NamedKey::Zenkaku => keysym == KEY_ZENKAKU,
        NamedKey::ZenkakuHankaku => keysym == KEY_ZENKAKU_HANKAKU,
        NamedKey::F1 => keysym == KEY_F1 || keysym == KEY_KP_F1,
        NamedKey::F2 => keysym == KEY_F2 || keysym == KEY_KP_F2,
        NamedKey::F3 => keysym == KEY_F3 || keysym == KEY_KP_F3,
        NamedKey::F4 => keysym == KEY_F4 || keysym == KEY_KP_F4,
        NamedKey::F5 => keysym == KEY_F5,
        NamedKey::F6 => keysym == KEY_F6,
        NamedKey::F7 => keysym == KEY_F7,
        NamedKey::F8 => keysym == KEY_F8,
        NamedKey::F9 => keysym == KEY_F9,
        NamedKey::F10 => keysym == KEY_F10,
        NamedKey::F11 => keysym == KEY_F11,
        NamedKey::F12 => keysym == KEY_F12,
        NamedKey::F13 => keysym == KEY_F13,
        NamedKey::F14 => keysym == KEY_F14,
        NamedKey::F15 => keysym == KEY_F15,
        NamedKey::F16 => keysym == KEY_F16,
        NamedKey::F17 => keysym == KEY_F17,
        NamedKey::F18 => keysym == KEY_F18,
        NamedKey::F19 => keysym == KEY_F19,
        NamedKey::F20 => keysym == KEY_F20,
        NamedKey::F21 => keysym == KEY_F21,
        NamedKey::F22 => keysym == KEY_F22,
        NamedKey::F23 => keysym == KEY_F23,
        NamedKey::F24 => keysym == KEY_F24,
        NamedKey::F25 => keysym == KEY_F25,
        NamedKey::F26 => keysym == KEY_F26,
        NamedKey::F27 => keysym == KEY_F27,
        NamedKey::F28 => keysym == KEY_F28,
        NamedKey::F29 => keysym == KEY_F29,
        NamedKey::F30 => keysym == KEY_F30,
        NamedKey::F31 => keysym == KEY_F31,
        NamedKey::F32 => keysym == KEY_F32,
        NamedKey::F33 => keysym == KEY_F33,
        NamedKey::F34 => keysym == KEY_F34,
        NamedKey::F35 => keysym == KEY_F35,
        _ => false,
    }
}

/// Keysyms resolve by their names: a keysym names `key` exactly when it is
/// one of the XKB keysyms of that key (for example `Page_Up` and
/// `KP_Page_Up` for `PageUp`, `Page_Down` and `KP_Page_Down` for
/// `PageDown`).
#[verifier::rlimit(40)]
pub proof fn lemma_keysym_named_key_by_name(keysym: u32, key: NamedKey)
    ensures
        keysym_named_key(keysym) == Some(key) <==> keysym_names(keysym, key),
{
}

/// The keypad navigation and editing keysyms name the same key as their
/// main-block counterparts, and the navigation block names eight different
/// keys.
pub proof fn lemma_keysym_navigation(a: u32, b: u32)
    ensures
        keysym_named_key(KEY_KP_HOME) == keysym_named_key(KEY_HOME),
        keysym_named_key(KEY_KP_LEFT) == keysym_named_key(KEY_LEFT),
        keysym_named_key(KEY_KP_UP) == keysym_named_key(KEY_UP),
        keysym_named_key(KEY_KP_RIGHT) == keysym_named_key(KEY_RIGHT),
        keysym_named_key(KEY_KP_DOWN) == keysym_named_key(KEY_DOWN),
        keysym_named_key(KEY_KP_PAGE_UP) == keysym_named_key(KEY_PAGE_UP),
        keysym_named_key(KEY_KP_PAGE_DOWN) == keysym_named_key(KEY_PAGE_DOWN),
        keysym_named_key(KEY_KP_END) == keysym_named_key(KEY_END),
        keysym_named_key(KEY_KP_INSERT) == keysym_named_key(KEY_INSERT),
        keysym_named_key(KEY_KP_DELETE) == keysym_named_key(KEY_DELETE),
        KEY_HOME <= a <= KEY_END && KEY_HOME <= b <= KEY_END && a != b ==> keysym_named_key(a) != keysym_named_key(b),
{
}

/// The function keysyms `F1` to `F35` name `F1` to `F35` in order.
pub proof fn lemma_keysym_function_keys(keysym: u32)
    ensures
        KEY_F1 <= keysym <= KEY_F1 + 34 ==> keysym_named_key(keysym) == Some(named_function_key((keysym - KEY_F1 + 1) as int)),
{
}

/// Map an XKB keysym to a [`NamedKey`] if it names a non-typing key: the
/// editing, navigation, function, modifier, lock, input-method and keypad
/// action keys. Typing keysyms (letters, digits, punctuation, space, and the
/// keypad digits and operators) give `None`, as do the obscure multimedia,
/// browser and power keysyms. The super, hyper and meta keysyms are all
/// [`NamedKey::Meta`].
pub fn named_key_from_keysym(keysym: u32) -> (r: Option<NamedKey>)
    ensures
        r == keysym_named_key(keysym),
{
    let k = match keysym {
        KEY_BACKSPACE => NamedKey::Backspace,
        KEY_TAB | KEY_KP_TAB | KEY_ISO_LEFT_TAB => NamedKey::Tab,
        KEY_CLEAR => NamedKey::Clear,
        KEY_RETURN | KEY_KP_ENTER | KEY_ISO_ENTER => NamedKey::Enter,
        KEY_PAUSE | KEY_BREAK => NamedKey::Pause,
        KEY_SCROLL_LOCK => NamedKey::ScrollLock,
        KEY_SYS_REQ | KEY_PRINT => NamedKey::PrintScreen,
        KEY_ESCAPE => NamedKey::Escape,
        KEY_DELETE | KEY_KP_DELETE => NamedKey::Delete,
        KEY_MULTI_KEY => NamedKey::Compose,
        KEY_MODE_SWITCH => NamedKey::ModeChange,
        KEY_ISO_NEXT_GROUP => NamedKey::GroupNext,
        KEY_ISO_PREV_GROUP => NamedKey::GroupPrevious,
        KEY_ISO_FIRST_GROUP => NamedKey::GroupFirst,
        KEY_ISO_LAST_GROUP => NamedKey::GroupLast,
        KEY_KANJI => NamedKey::KanjiMode,
        KEY_MUHENKAN => NamedKey::NonConvert,
        KEY_HENKAN_MODE => NamedKey::Convert,
        KEY_ROMAJI => NamedKey::Romaji,
        KEY_HIRAGANA => NamedKey::Hiragana,
        KEY_KATAKANA => NamedKey::Katakana,
        KEY_HIRAGANA_KATAKANA => NamedKey::HiraganaKatakana,
        KEY_ZENKAKU => NamedKey::Zenkaku,
        KEY_HANKAKU => NamedKey::Hankaku,
        KEY_ZENKAKU_HANKAKU => NamedKey::ZenkakuHankaku,
        KEY_KANA_LOCK => NamedKey::KanaMode,
        KEY_EISU_TOGGLE => NamedKey::Alphanumeric,
        KEY_HANGUL => NamedKey::HangulMode,
        KEY_HANGUL_HANJA => NamedKey::HanjaMode,
        KEY_HOME | KEY_KP_HOME => NamedKey::Home,
        KEY_LEFT | KEY_KP_LEFT => NamedKey::ArrowLeft,
        KEY_UP | KEY_KP_UP => NamedKey::ArrowUp,
        KEY_RIGHT | KEY_KP_RIGHT => NamedKey::ArrowRight,
        KEY_DOWN | KEY_KP_DOWN => NamedKey::ArrowDown,
        KEY_PAGE_UP | KEY_KP_PAGE_UP => NamedKey::PageUp,
        KEY_PAGE_DOWN | KEY_KP_PAGE_DOWN => NamedKey::PageDown,
        KEY_END | KEY_KP_END => NamedKey::End,
        KEY_INSERT | KEY_KP_INSERT => NamedKey::Insert,
        KEY_SELECT => NamedKey::Select,
        KEY_EXECUTE => NamedKey::Execute,
        KEY_UNDO => NamedKey::Undo,
        KEY_REDO => NamedKey::Redo,
        KEY_MENU => NamedKey::ContextMenu,
        KEY_FIND => NamedKey::Find,
        KEY_CANCEL => NamedKey::Cancel,
        KEY_HELP => NamedKey::Help,
        KEY_NUM_LOCK => NamedKey::NumLock,
        KEY_F1 | KEY_KP_F1 => NamedKey::F1,
        KEY_F2 | KEY_KP_F2 => NamedKey::F2,
        KEY_F3 | KEY_KP_F3 => NamedKey::F3,
        KEY_F4 | KEY_KP_F4 => NamedKey::F4,
        KEY_F5 => NamedKey::F5,
        KEY_F6 => NamedKey::F6,
        KEY_F7 => NamedKey::F7,
        KEY_F8 => NamedKey::F8,
        KEY_F9 => NamedKey::F9,
        KEY_F10 => NamedKey::F10,
        KEY_F11 => NamedKey::F11,
        KEY_F12 => NamedKey::F12,
        KEY_F13 => NamedKey::F13,
        KEY_F14 => NamedKey::F14,
        KEY_F15 => NamedKey::F15,
        KEY_F16 => NamedKey::F16,
        KEY_F17 => NamedKey::F17,
        KEY_F18 => NamedKey::F18,
        KEY_F19 => NamedKey::F19,
        KEY_F20 => NamedKey::F20,
        KEY_F21 => NamedKey::F21,
        KEY_F22 => NamedKey::F22,
        KEY_F23 => NamedKey::F23,
        KEY_F24 => NamedKey::F24,
        KEY_F25 => NamedKey::F25,
        KEY_F26 => NamedKey::F26,
        KEY_F27 => NamedKey::F27,
        KEY_F28 => NamedKey::F28,
        KEY_F29 => NamedKey::F29,
        KEY_F30 => NamedKey::F30,
        KEY_F31 => NamedKey::F31,
        KEY_F32 => NamedKey::F32,
        KEY_F33 => NamedKey::F33,
        KEY_F34 => NamedKey::F34,
        KEY_F35 => NamedKey::F35,
        KEY_SHIFT_L | KEY_SHIFT_R => NamedKey::Shift,
        KEY_CONTROL_L | KEY_CONTROL_R => NamedKey::Control,
        KEY_CAPS_LOCK => NamedKey::CapsLock,
        KEY_ALT_L | KEY_ALT_R => NamedKey::Alt,
        KEY_META_L | KEY_META_R | KEY_SUPER_L | KEY_SUPER_R | KEY_HYPER_L | KEY_HYPER_R => NamedKey::Meta,
        KEY_ISO_LEVEL3_SHIFT | KEY_ISO_LEVEL3_LATCH | KEY_ISO_LEVEL3_LOCK => NamedKey::AltGraph,
        _ => {
            return None;
        },
    };
    Some(k)
}

/// Every keysym that names a key lies in the X11 function-key block
/// `0xfe00..=0xffff`; the Latin-1 and Unicode keysyms of the typing keys, and
/// `NoSymbol`, never name a key.
pub proof fn lemma_named_keysyms_are_function_keysyms(keysym: u32)
    ensures
        keysym_named_key(keysym) is Some ==> 0xfe00 <= keysym <= 0xffff,
{
}

/// Whether `c` is a control character (Unicode general category `Cc`).
pub open spec fn is_control(c: char) -> bool {
    (c as u32) < 0x20 || (0x7f <= (c as u32) && (c as u32) <= 0x9f)
}

/// Whether `c` is a control character (Unicode general category `Cc`:
/// U+0000..U+001F and U+007F..U+009F).
pub fn char_is_control(c: char) -> (r: bool)
    ensures
        r == is_control(c),
{
    let v = c as u32;
    v < 0x20 || (0x7f <= v && v <= 0x9f)
}

/// Whether `text` is usable as a character key value: non-empty and free of
/// control characters.
pub open spec fn is_key_text(text: Seq<char>) -> bool {
    text.len() > 0 && forall|i: int| 0 <= i < text.len() ==> !is_control(#[trigger] text[i])
}

/// Resolve an XKB keysym and the text the key types (`xkb_state_key_get_utf8`)
/// into a logical [`Key`].
///
/// A keysym that names a key gives that named key, even when its text is a
/// control character (Enter, Escape). Otherwise non-empty text with no
/// control characters becomes a character key, which covers letters, digits,
/// punctuation and space. Anything else is [`NamedKey::Unidentified`].
pub fn key_from_keysym(keysym: u32, text: &str) -> (k: Key)
    ensures
        keysym_named_key(keysym) matches Some(n) ==> k == Key::Named(n),
        keysym_named_key(keysym) is None && is_key_text(text@) ==> (k matches Key::Character(s)
            && s@ == text@),
        keysym_named_key(keysym) is None && !is_key_text(text@) ==> k == Key::Named(
            NamedKey::Unidentified,
        ),
{
    if let Some(named) = named_key_from_keysym(keysym) {
        return Key::Named(named);
    }
    if text.is_empty() {
        return Key::Named(NamedKey::Unidentified);
    }
    proof {
        broadcast use vstd::string::axiom_spec_iter;
    }
    for c in it: text.chars()
        invariant
            it.seq() == text@,
            keysym_named_key(keysym) is None,
            forall|i: int| 0 <= i < it.index() ==> !is_control(#[trigger] text@[i]),
    {
        if char_is_control(c) {
            return Key::Named(NamedKey::Unidentified);
        }
    }
    Key::Character(text.to_owned())
}

/// The keyboard location of a physical key.
pub open spec fn code_location(code: Code) -> Location {
    match code {
        Code::ShiftLeft | Code::ControlLeft | Code::AltLeft | Code::MetaLeft => Location::Left,
        Code::ShiftRight | Code::ControlRight | Code::AltRight | Code::MetaRight => Location::Right,
        Code::Numpad0 | Code::Numpad1 | Code::Numpad2 | Code::Numpad3 | Code::Numpad4
        | Code::Numpad5 | Code::Numpad6 | Code::Numpad7 | Code::Numpad8 | Code::Numpad9
        | Code::NumpadAdd | Code::NumpadSubtract | Code::NumpadMultiply | Code::NumpadDivide
        | Code::NumpadDecimal | Code::NumpadComma | Code::NumpadEnter | Code::NumpadEqual =>
            Location::Numpad,
        _ => Location::Standard,
    }
}

/// Map a physical [`Code`] to its W3C keyboard [`Location`]: the left and
/// right modifier keys to `Left`/`Right`, the numeric-keypad keys to
/// `Numpad`, and everything else, Num Lock included, to `Standard`.
pub fn location_from_code(code: Code) -> (l: Location)
    ensures
        l == code_location(code),
{
    match code {
        Code::ShiftLeft | Code::ControlLeft | Code::AltLeft | Code::MetaLeft => Location::Left,
        Code::ShiftRight | Code::ControlRight | Code::AltRight | Code::MetaRight => Location::Right,
        Code::Numpad0 | Code::Numpad1 | Code::Numpad2 | Code::Numpad3 | Code::Numpad4
        | Code::Numpad5 | Code::Numpad6 | Code::Numpad7 | Code::Numpad8 | Code::Numpad9
        | Code::NumpadAdd | Code::NumpadSubtract | Code::NumpadMultiply | Code::NumpadDivide
        | Code::NumpadDecimal | Code::NumpadComma | Code::NumpadEnter | Code::NumpadEqual =>
            Location::Numpad,
        _ => Location::Standard,
    }
}

/// The physical type of a tablet tool, as `zwp_tablet_tool_v2` reports it.
#[derive(Clone, Copy, Debug, PartialEq, Eq, Structural, Hash)]
pub enum ToolType {
    /// A pen.
    Pen,
    /// An eraser, conventionally the opposite end of a pen.
    Eraser,
    /// A brush.
    Brush,
    /// A pencil.
    Pencil,
    /// An airbrush.
    Airbrush,
    /// A finger on a touch-capable tablet.
    Finger,
    /// A mouse-shaped tool bound to the tablet surface (a puck).
    Mouse,
    /// A mouse-shaped tool with a focusing lens.
    Lens,
}

/// The pointer kind a tablet tool reports as.
pub open spec fn tool_pointer_type(tool: ToolType) -> PointerType {
    match tool {
        ToolType::Mouse | ToolType::Lens => PointerType::Mouse,
        ToolType::Finger => PointerType::Touch,
        _ => PointerType::Pen,
    }
}

/// Map a tablet [`ToolType`] to its [`PointerType`]: the pen-like drawing
/// tools (pen, eraser, brush, pencil, airbrush) are pens, the puck-style mouse
/// and lens tools are mice, and the finger tool is touch.
pub fn pointer_type_from_tool(tool: ToolType) -> (t: PointerType)
    ensures
        t == tool_pointer_type(tool),
{
    match tool {
        ToolType::Pen | ToolType::Eraser | ToolType::Brush | ToolType::Pencil
        | ToolType::Airbrush => PointerType::Pen,
        ToolType::Mouse | ToolType::Lens => PointerType::Mouse,
        ToolType::Finger => PointerType::Touch,
    }
}

/// The [`PointerButton`] a tablet tool's tip contact maps to: the eraser's tip
/// is the pen-eraser button, every other tool's tip the primary button.
pub fn tip_button_from_tool(tool: ToolType) -> (b: PointerButton)
    ensures
        b == (if tool == ToolType::Eraser {
            PointerButton::PenEraser
        } else {
            PointerButton::Primary
        }),
{
    match tool {
        ToolType::Eraser => PointerButton::PenEraser,
        _ => PointerButton::Primary,
    }
}


} // verus!
