//! Pointer-button conversions for raw Win32 mouse-button messages.

use vstd::prelude::*;

use crate::pointer::PointerButton;
use crate::wayland::mapping::{evdev_pointer_button, BTN_EXTRA, BTN_LEFT, BTN_MIDDLE, BTN_RIGHT, BTN_SIDE};

verus! {

/// `WM_LBUTTONDOWN`.
pub const WM_LBUTTONDOWN: u32 = 513;
/// `WM_LBUTTONUP`.
pub const WM_LBUTTONUP: u32 = 514;
/// `WM_RBUTTONDOWN`.
pub const WM_RBUTTONDOWN: u32 = 516;
/// `WM_RBUTTONUP`.
pub const WM_RBUTTONUP: u32 = 517;
/// `WM_MBUTTONDOWN`.
pub const WM_MBUTTONDOWN: u32 = 519;
/// `WM_MBUTTONUP`.
pub const WM_MBUTTONUP: u32 = 520;
/// `WM_XBUTTONDOWN`.
pub const WM_XBUTTONDOWN: u32 = 523;
/// `WM_XBUTTONUP`.
pub const WM_XBUTTONUP: u32 = 524;

/// The high word of `wParam`: for `WM_XBUTTONDOWN`/`WM_XBUTTONUP` it says
/// which extended button changed.
pub fn get_xbutton_wparam(wparam: usize) -> (r: u16)
    ensures
        r == (wparam as nat / 0x10000) % 0x10000,
{
    let r = ((wparam >> 16usize) & 0xffffusize) as u16;
    assert(((wparam >> 16usize) & 0xffffusize) == (wparam / 0x10000) % 0x10000) by (bit_vector);
    r
}

/// The button a mouse-button message stands for.
pub open spec fn win32_message_button(msg: u32, wparam: usize) -> Option<PointerButton> {
    if msg == WM_LBUTTONDOWN || msg == WM_LBUTTONUP {
        Some(PointerButton::Primary)
    } else if msg == WM_RBUTTONDOWN || msg == WM_RBUTTONUP {
        Some(PointerButton::Secondary)
    } else if msg == WM_MBUTTONDOWN || msg == WM_MBUTTONUP {
        Some(PointerButton::Auxiliary)
    } else if msg == WM_XBUTTONDOWN || msg == WM_XBUTTONUP {
        let x = (wparam as nat / 0x10000) % 0x10000;
        if x == 1 {
            Some(PointerButton::X1)
        } else if x == 2 {
            Some(PointerButton::X2)
        } else {
            None
        }
    } else {
        None
    }
}

/// The [`PointerButton`] of a mouse-button message: left, right and middle
/// to the primary, secondary and auxiliary buttons, and for the extended
/// buttons `XBUTTON1` (back) to `X1` and `XBUTTON2` (forward) to `X2`, read
/// from the high word of `wparam`. Any other message or extended button
/// gives `None`.
pub fn try_from_win32_button(msg: u32, wparam: usize) -> (r: Option<PointerButton>)
    ensures
        r == win32_message_button(msg, wparam),
{
    match msg {
        WM_LBUTTONDOWN | WM_LBUTTONUP => Some(PointerButton::Primary),
        WM_RBUTTONDOWN | WM_RBUTTONUP => Some(PointerButton::Secondary),
        WM_MBUTTONDOWN | WM_MBUTTONUP => Some(PointerButton::Auxiliary),
        WM_XBUTTONDOWN | WM_XBUTTONUP => {
            let x = get_xbutton_wparam(wparam);
            if x == 1 {
                Some(PointerButton::X1)
            } else if x == 2 {
                Some(PointerButton::X2)
            } else {
                None
            }
        },
        _ => None,
    }
}

/// A button-down message and its matching button-up message name the same
/// button, whatever `wparam` holds; the left, right and middle messages name
/// the primary, secondary and auxiliary buttons for every `wparam`; the
/// extended messages name `X1` or `X2` as the high word of `wparam` is 1 or 2;
/// and different message pairs name different buttons.
pub proof fn lemma_win32_buttons_pair_up(wparam: usize, other: usize)
    ensures
        win32_message_button(WM_LBUTTONDOWN, wparam) == win32_message_button(WM_LBUTTONUP, wparam),
        win32_message_button(WM_RBUTTONDOWN, wparam) == win32_message_button(WM_RBUTTONUP, wparam),
        win32_message_button(WM_MBUTTONDOWN, wparam) == win32_message_button(WM_MBUTTONUP, wparam),
        win32_message_button(WM_XBUTTONDOWN, wparam) == win32_message_button(WM_XBUTTONUP, wparam),
        win32_message_button(WM_LBUTTONDOWN, wparam) == Some(PointerButton::Primary),
        win32_message_button(WM_RBUTTONDOWN, wparam) == Some(PointerButton::Secondary),
        win32_message_button(WM_MBUTTONDOWN, wparam) == Some(PointerButton::Auxiliary),
        (wparam as nat / 0x10000) % 0x10000 == 1 ==> win32_message_button(WM_XBUTTONDOWN, wparam) == Some(PointerButton::X1),
        (wparam as nat / 0x10000) % 0x10000 == 2 ==> win32_message_button(WM_XBUTTONDOWN, wparam) == Some(PointerButton::X2),
        win32_message_button(WM_LBUTTONDOWN, wparam) != win32_message_button(WM_RBUTTONDOWN, other),
        win32_message_button(WM_LBUTTONDOWN, wparam) != win32_message_button(WM_MBUTTONDOWN, other),
        win32_message_button(WM_RBUTTONDOWN, wparam) != win32_message_button(WM_MBUTTONDOWN, other),
        win32_message_button(WM_XBUTTONDOWN, wparam) is Some ==> win32_message_button(WM_XBUTTONDOWN, wparam)
            != win32_message_button(WM_LBUTTONDOWN, other) && win32_message_button(WM_XBUTTONDOWN, wparam)
            != win32_message_button(WM_RBUTTONDOWN, other) && win32_message_button(WM_XBUTTONDOWN, wparam)
            != win32_message_button(WM_MBUTTONDOWN, other),
{
}

/// A Win32 mouse-button message names the same button as the evdev code of
/// the same physical button: left, right and middle as `BTN_LEFT`,
/// `BTN_RIGHT` and `BTN_MIDDLE`, and the first and second extended buttons
/// as `BTN_SIDE` and `BTN_EXTRA`.
pub proof fn lemma_win32_buttons_match_evdev(wparam: usize)
    ensures
        win32_message_button(WM_LBUTTONDOWN, wparam) == evdev_pointer_button(BTN_LEFT),
        win32_message_button(WM_RBUTTONDOWN, wparam) == evdev_pointer_button(BTN_RIGHT),
        win32_message_button(WM_MBUTTONDOWN, wparam) == evdev_pointer_button(BTN_MIDDLE),
        (wparam as nat / 0x10000) % 0x10000 == 1 ==> win32_message_button(WM_XBUTTONDOWN, wparam) == evdev_pointer_button(BTN_SIDE),
        (wparam as nat / 0x10000) % 0x10000 == 2 ==> win32_message_button(WM_XBUTTONDOWN, wparam) == evdev_pointer_button(BTN_EXTRA),
{
}

} // verus!
