//! The decisions of the Win32 window-message reducer: which kind of message
//! arrived, the values packed into its parameters, and the state it keeps
//! between messages (whether the cursor is inside the window, the buttons
//! held, and whether an IME composition is in progress).
//!
//! The caller performs the Win32 calls these decisions call for
//! (`TrackMouseEvent`, `SetCapture`, `ReleaseCapture`, the touch and IME
//! queries) and builds the pointer states, which carry floating-point
//! coordinates.

use vstd::prelude::*;

use crate::pointer::{PointerButton, PointerButtons, PointerId};
use crate::text::TextInputEvent;
use crate::windows::pointer::{self as win_pointer, win32_message_button};

verus! {

/// `WM_KEYDOWN`.
pub const WM_KEYDOWN: u32 = 256;
/// `WM_KEYUP`.
pub const WM_KEYUP: u32 = 257;
/// `WM_SYSKEYDOWN`.
pub const WM_SYSKEYDOWN: u32 = 260;
/// `WM_SYSKEYUP`.
pub const WM_SYSKEYUP: u32 = 261;
/// `WM_IME_STARTCOMPOSITION`.
pub const WM_IME_STARTCOMPOSITION: u32 = 269;
/// `WM_IME_ENDCOMPOSITION`.
pub const WM_IME_ENDCOMPOSITION: u32 = 270;
/// `WM_IME_COMPOSITION`.
pub const WM_IME_COMPOSITION: u32 = 271;
/// `WM_MOUSEMOVE`.
pub const WM_MOUSEMOVE: u32 = 512;
/// `WM_MOUSEWHEEL`.
pub const WM_MOUSEWHEEL: u32 = 522;
/// `WM_MOUSEHWHEEL`.
pub const WM_MOUSEHWHEEL: u32 = 526;
/// `WM_TOUCH`.
pub const WM_TOUCH: u32 = 576;
/// `WM_MOUSELEAVE`.
pub const WM_MOUSELEAVE: u32 = 675;
/// The `dwFlags` bit of a touch point that went down.
pub const TOUCHEVENTF_DOWN: u32 = 2;
/// The `dwFlags` bit of a touch point that went up.
pub const TOUCHEVENTF_UP: u32 = 4;

/// The kinds of window message the reducer handles.
#[derive(Clone, Copy, Debug, PartialEq, Eq, Structural, Hash)]
pub enum Win32Message {
    /// `WM_KEYDOWN` or `WM_SYSKEYDOWN`.
    KeyDown,
    /// `WM_KEYUP` or `WM_SYSKEYUP`.
    KeyUp,
    /// `WM_IME_STARTCOMPOSITION`.
    ImeStartComposition,
    /// `WM_IME_ENDCOMPOSITION`.
    ImeEndComposition,
    /// `WM_IME_COMPOSITION`.
    ImeComposition,
    /// `WM_MOUSEMOVE`.
    MouseMove,
    /// `WM_MOUSELEAVE`.
    MouseLeave,
    /// A mouse button went down (left, right, middle or extended).
    ButtonDown,
    /// A mouse button went up (left, right, middle or extended).
    ButtonUp,
    /// `WM_MOUSEWHEEL`.
    MouseWheel,
    /// `WM_MOUSEHWHEEL`.
    MouseHWheel,
    /// `WM_TOUCH`.
    Touch,
    /// Any other message.
    Other,
}

/// The kind of window message `msg`.
pub open spec fn message_kind(msg: u32) -> Win32Message {
    if msg == WM_KEYDOWN || msg == WM_SYSKEYDOWN {
        Win32Message::KeyDown
    } else if msg == WM_KEYUP || msg == WM_SYSKEYUP {
        Win32Message::KeyUp
    } else if msg == WM_IME_STARTCOMPOSITION {
        Win32Message::ImeStartComposition
    } else if msg == WM_IME_ENDCOMPOSITION {
        Win32Message::ImeEndComposition
    } else if msg == WM_IME_COMPOSITION {
        Win32Message::ImeComposition
    } else if msg == WM_MOUSEMOVE {
        Win32Message::MouseMove
    } else if msg == WM_MOUSELEAVE {
        Win32Message::MouseLeave
    } else if msg == win_pointer::WM_LBUTTONDOWN || msg == win_pointer::WM_RBUTTONDOWN || msg
        == win_pointer::WM_MBUTTONDOWN || msg == win_pointer::WM_XBUTTONDOWN {
        Win32Message::ButtonDown
    } else if msg == win_pointer::WM_LBUTTONUP || msg == win_pointer::WM_RBUTTONUP || msg
        == win_pointer::WM_MBUTTONUP || msg == win_pointer::WM_XBUTTONUP {
        Win32Message::ButtonUp
    } else if msg == WM_MOUSEWHEEL {
        Win32Message::MouseWheel
    } else if msg == WM_MOUSEHWHEEL {
        Win32Message::MouseHWheel
    } else if msg == WM_TOUCH {
        Win32Message::Touch
    } else {
        Win32Message::Other
    }
}

/// Mouse-button and key messages come in down/up pairs with adjacent codes:
/// a message is a button-down exactly when the next code is a button-up, and
/// a key-down exactly when the next code is a key-up. A message classifies
/// as a button message exactly when it names a button (given an extended
/// button in `wparam`).
pub proof fn lemma_message_pairs(msg: u32)
    ensures
        msg < u32::MAX ==> (message_kind(msg) == Win32Message::ButtonDown <==> message_kind((msg + 1) as u32)
            == Win32Message::ButtonUp),
        msg < u32::MAX ==> (message_kind(msg) == Win32Message::KeyDown <==> message_kind((msg + 1) as u32)
            == Win32Message::KeyUp),
        (message_kind(msg) == Win32Message::ButtonDown || message_kind(msg) == Win32Message::ButtonUp)
            <==> win32_message_button(msg, 0x10000) is Some,
{
}

/// Classify a window message.
pub fn classify_message(msg: u32) -> (k: Win32Message)
    ensures
        k == message_kind(msg),
{
    match msg {
        WM_KEYDOWN | WM_SYSKEYDOWN => Win32Message::KeyDown,
        WM_KEYUP | WM_SYSKEYUP => Win32Message::KeyUp,
        WM_IME_STARTCOMPOSITION => Win32Message::ImeStartComposition,
        WM_IME_ENDCOMPOSITION => Win32Message::ImeEndComposition,
        WM_IME_COMPOSITION => Win32Message::ImeComposition,
        WM_MOUSEMOVE => Win32Message::MouseMove,
        WM_MOUSELEAVE => Win32Message::MouseLeave,
        win_pointer::WM_LBUTTONDOWN | win_pointer::WM_RBUTTONDOWN | win_pointer::WM_MBUTTONDOWN
        | win_pointer::WM_XBUTTONDOWN => Win32Message::ButtonDown,
        win_pointer::WM_LBUTTONUP | win_pointer::WM_RBUTTONUP | win_pointer::WM_MBUTTONUP
        | win_pointer::WM_XBUTTONUP => Win32Message::ButtonUp,
        WM_MOUSEWHEEL => Win32Message::MouseWheel,
        WM_MOUSEHWHEEL => Win32Message::MouseHWheel,
        WM_TOUCH => Win32Message::Touch,
        _ => Win32Message::Other,
    }
}

/// The two's-complement value of a 16-bit word.
pub open spec fn signed_word(w: nat) -> int {
    if w < 0x8000 {
        w as int
    } else {
        w - 0x10000
    }
}

/// The x coordinate packed in the low word of a mouse message's `lParam`,
/// sign-extended (`GET_X_LPARAM`).
pub fn get_x_lparam(lparam: isize) -> (x: i16)
    ensures
        x == signed_word((lparam as u32) as nat % 0x10000),
{
    let w = lparam as u32;
    let low = (w & 0xffffu32) as u16;
    assert((w & 0xffffu32) == w % 0x10000) by (bit_vector);
    let x = low as i16;
    assert(x == signed_word(low as nat)) by (bit_vector)
        requires
            x == low as i16,
    ;
    x
}

/// The y coordinate packed in the high word of a mouse message's `lParam`
/// (of its low 32 bits), sign-extended (`GET_Y_LPARAM`).
pub fn get_y_lparam(lparam: isize) -> (y: i16)
    ensures
        y == signed_word(((lparam as u32) as nat / 0x10000) % 0x10000),
{
    let w = lparam as u32;
    let high = ((w >> 16u32) & 0xffffu32) as u16;
    assert(((w >> 16u32) & 0xffffu32) == (w / 0x10000) % 0x10000) by (bit_vector);
    let y = high as i16;
    assert(y == signed_word(high as nat)) by (bit_vector)
        requires
            y == high as i16,
    ;
    y
}

/// The signed wheel rotation of a `WM_MOUSEWHEEL`/`WM_MOUSEHWHEEL` message,
/// in units where `WHEEL_DELTA` (120) is one notch: the high word of the low
/// 32 bits of `wparam`, sign-extended.
pub fn wheel_delta(wparam: usize) -> (d: i16)
    ensures
        d == signed_word(((wparam as nat) / 0x10000) % 0x10000),
{
    let high = ((wparam >> 16usize) & 0xffffusize) as u16;
    assert(((wparam >> 16usize) & 0xffffusize) == (wparam / 0x10000) % 0x10000) by (bit_vector);
    let d = high as i16;
    assert(d == signed_word(high as nat)) by (bit_vector)
        requires
            d == high as i16,
    ;
    d
}

/// The number of touch points a `WM_TOUCH` message carries: the low word of
/// its `wParam`.
pub fn touch_count(wparam: usize) -> (n: usize)
    ensures
        n == (wparam as nat) % 0x10000,
{
    assert(wparam & 0xffffusize == wparam % 0x10000) by (bit_vector);
    wparam & 0xffffusize
}

/// What a touch point reports.
#[derive(Clone, Copy, Debug, PartialEq, Eq, Structural, Hash)]
pub enum TouchKind {
    /// The point went down.
    Down,
    /// The point went up.
    Up,
    /// The point moved.
    Move,
}

/// The kind of a touch point from its `dwFlags`: down when the down bit is
/// set, else up when the up bit is set, else a move; and whether its
/// pressure is the released one (the up bit is set).
pub fn touch_kind(flags: u32) -> (r: (TouchKind, bool))
    ensures
        r.0 == (if (flags / 2) % 2 == 1 {
            TouchKind::Down
        } else if (flags / 4) % 2 == 1 {
            TouchKind::Up
        } else {
            TouchKind::Move
        }),
        r.1 == ((flags / 4) % 2 == 1),
{
    assert((flags & TOUCHEVENTF_DOWN != 0) == ((flags / 2) % 2 == 1)) by (bit_vector);
    assert((flags & TOUCHEVENTF_UP != 0) == ((flags / 4) % 2 == 1)) by (bit_vector);
    let released = flags & TOUCHEVENTF_UP != 0;
    let kind = if flags & TOUCHEVENTF_DOWN != 0 {
        TouchKind::Down
    } else if released {
        TouchKind::Up
    } else {
        TouchKind::Move
    };
    (kind, released)
}

/// The pointer identity of a touch point: its `dwID` plus one, so that it
/// is never zero.
pub fn touch_pointer_id(id: u32) -> (p: Option<PointerId>)
    ensures
        p matches Some(q) && q.value() == id + 1,
{
    PointerId::new((id as u64) + 1)
}

/// A mouse-button change to emit.
#[derive(Clone, Copy, Debug, PartialEq, Eq, Structural, Hash)]
pub struct Win32ButtonChange {
    /// The button, or `None` for an unknown extended button.
    pub button: Option<PointerButton>,
    /// The buttons held after the change.
    pub buttons: PointerButtons,
    /// For a release: whether no button is held any more, so that the mouse
    /// capture is released.
    pub release_capture: bool,
}

/// A pointer event a `WM_MOUSEMOVE` becomes.
#[derive(Clone, Copy, Debug, PartialEq, Eq, Structural, Hash)]
pub enum MouseMoveEmission {
    /// The primary mouse entered the window.
    Enter,
    /// The primary mouse moved.
    Move,
}

/// The events of a `WM_MOUSEMOVE` when the cursor was (`inside`) or was not
/// yet known to be inside the window: an enter then a move for the first
/// move after creation or after `WM_MOUSELEAVE`, else just a move.
pub open spec fn mouse_move_emissions(inside: bool) -> Seq<MouseMoveEmission> {
    if inside {
        seq![MouseMoveEmission::Move]
    } else {
        seq![MouseMoveEmission::Enter, MouseMoveEmission::Move]
    }
}

/// The state the Win32 reducer keeps between messages.
#[derive(Clone, Copy, Debug, PartialEq, Eq)]
pub struct Win32InputState {
    ime_composing: bool,
    mouse_in_window: bool,
    buttons: PointerButtons,
}

impl Win32InputState {
    /// Whether a non-empty IME composition is in progress.
    pub closed spec fn composing(self) -> bool {
        self.ime_composing
    }

    /// Whether the cursor is known to be inside the window.
    pub closed spec fn inside(self) -> bool {
        self.mouse_in_window
    }

    /// The mouse buttons held.
    pub closed spec fn held(self) -> PointerButtons {
        self.buttons
    }

    /// Nothing composing, cursor outside, no button held.
    pub fn new() -> (s: Win32InputState)
        ensures
            !s.composing(),
            !s.inside(),
            s.held() == PointerButtons::none(),
    {
        Win32InputState { ime_composing: false, mouse_in_window: false, buttons: PointerButtons::new() }
    }

    /// The mouse buttons held.
    pub fn buttons(&self) -> (b: PointerButtons)
        ensures
            b == self.held(),
    {
        self.buttons
    }

    /// Handle `WM_MOUSEMOVE`: the pointer events it becomes, in order (see
    /// [`mouse_move_emissions`]). When the cursor just entered the window an
    /// enter comes before the move, and the caller arms `TrackMouseEvent` so
    /// that `WM_MOUSELEAVE` arrives; afterwards the cursor is inside.
    pub fn mouse_move(&mut self) -> (r: Vec<MouseMoveEmission>)
        ensures
            r@ == mouse_move_emissions(old(self).inside()),
            final(self).inside(),
            final(self).composing() == old(self).composing(),
            final(self).held() == old(self).held(),
    {
        if !self.mouse_in_window {
            self.mouse_in_window = true;
            vec![MouseMoveEmission::Enter, MouseMoveEmission::Move]
        } else {
            vec![MouseMoveEmission::Move]
        }
    }

    /// Handle `WM_MOUSELEAVE`: the cursor is outside.
    pub fn mouse_leave(&mut self)
        ensures
            !final(self).inside(),
            final(self).composing() == old(self).composing(),
            final(self).held() == old(self).held(),
    {
        self.mouse_in_window = false;
    }

    /// Handle a button-down message: the button (if known) joins the held
    /// set.
    pub fn button_down(&mut self, msg: u32, wparam: usize) -> (c: Win32ButtonChange)
        ensures
            c.button == win32_message_button(msg, wparam),
            c.buttons == (match c.button {
                Some(b) => old(self).held().inserted(b),
                None => old(self).held(),
            }),
            final(self).held() == c.buttons,
            !c.release_capture,
            final(self).inside() == old(self).inside(),
            final(self).composing() == old(self).composing(),
    {
        let button = win_pointer::try_from_win32_button(msg, wparam);
        if let Some(b) = button {
            self.buttons.insert(b);
        }
        Win32ButtonChange { button, buttons: self.buttons, release_capture: false }
    }

    /// Handle a button-up message: the button (if known) leaves the held
    /// set, and the capture is released when no button is held any more.
    pub fn button_up(&mut self, msg: u32, wparam: usize) -> (c: Win32ButtonChange)
        ensures
            c.button == win32_message_button(msg, wparam),
            c.buttons == (match c.button {
                Some(b) => old(self).held().removed(b),
                None => old(self).held(),
            }),
            final(self).held() == c.buttons,
            c.release_capture == c.buttons.is_none(),
            final(self).inside() == old(self).inside(),
            final(self).composing() == old(self).composing(),
    {
        let button = win_pointer::try_from_win32_button(msg, wparam);
        if let Some(b) = button {
            self.buttons.remove(b);
        }
        let release_capture = self.buttons.is_empty();
        Win32ButtonChange { button, buttons: self.buttons, release_capture }
    }

    /// Handle `WM_IME_ENDCOMPOSITION`: returns whether a composition was in
    /// progress, in which case a composition end is emitted; nothing is
    /// composing afterwards.
    pub fn end_ime_composition(&mut self) -> (ended: bool)
        ensures
            ended == old(self).composing(),
            !final(self).composing(),
            final(self).inside() == old(self).inside(),
            final(self).held() == old(self).held(),
    {
        if self.ime_composing {
            self.ime_composing = false;
            true
        } else {
            false
        }
    }

    /// Handle the text events of a `WM_IME_COMPOSITION`: a composition is in
    /// progress exactly when the first event is a composition update; a
    /// commit (first event an insertion) that ends a composition in
    /// progress is preceded by a composition end. Without events nothing
    /// changes.
    pub fn ime_composition(&mut self, events: Option<Vec<TextInputEvent>>) -> (r: Option<Vec<TextInputEvent>>)
        ensures
            match events {
                None => r is None && *final(self) == *old(self),
                Some(v) => {
                    let first_insert = v@.len() > 0 && v@[0] is Insert;
                    &&& final(self).composing() == (v@.len() > 0 && v@[0] is CompositionUpdate)
                    &&& r matches Some(w) && w@ == (if old(self).composing() && first_insert {
                        seq![TextInputEvent::CompositionEnd] + v@
                    } else {
                        v@
                    })
                    &&& final(self).inside() == old(self).inside()
                    &&& final(self).held() == old(self).held()
                },
            },
    {
        match events {
            None => None,
            Some(mut events) => {
                let was_composing = self.ime_composing;
                let n = events.len();
                let is_commit = n > 0 && matches!(events[0], TextInputEvent::Insert(_));
                self.ime_composing = n > 0 && matches!(events[0], TextInputEvent::CompositionUpdate(_));
                if was_composing && is_commit {
                    events.insert(0, TextInputEvent::CompositionEnd);
                }
                Some(events)
            },
        }
    }
}

/// What a call on a [`Win32InputState`] does to whether the cursor is
/// inside the window: a `WM_MOUSEMOVE` (`mouse_move`), a `WM_MOUSELEAVE`
/// (`mouse_leave`), or any other call, which keeps it.
#[derive(Clone, Copy, Debug, PartialEq, Eq, Structural, Hash)]
pub enum CursorCall {
    /// `mouse_move`.
    MouseMove,
    /// `mouse_leave`.
    MouseLeave,
    /// Any other method.
    Other,
}

/// Whether the cursor is inside after `calls`, starting from `inside`, as
/// the methods' contracts say one call at a time.
pub open spec fn inside_after(inside: bool, calls: Seq<CursorCall>) -> bool
    decreases calls.len(),
{
    if calls.len() == 0 {
        inside
    } else {
        match calls.last() {
            CursorCall::MouseMove => true,
            CursorCall::MouseLeave => false,
            CursorCall::Other => inside_after(inside, calls.drop_last()),
        }
    }
}

/// The index of the last `WM_MOUSELEAVE` in `calls`, or `-1` without one.
pub open spec fn last_leave(calls: Seq<CursorCall>) -> int
    decreases calls.len(),
{
    if calls.len() == 0 {
        -1
    } else if calls.last() == CursorCall::MouseLeave {
        calls.len() - 1
    } else {
        last_leave(calls.drop_last())
    }
}

/// Whether a `WM_MOUSEMOVE` came after the last `WM_MOUSELEAVE` (or, with
/// none, at all).
pub open spec fn moved_since_leave(calls: Seq<CursorCall>) -> bool {
    exists|i: int| last_leave(calls) < i < calls.len() && #[trigger] calls[i] == CursorCall::MouseMove
}

/// Over any sequence of calls on a state made by `new` (cursor outside), a
/// `WM_MOUSEMOVE` is an enter then a move exactly when no `WM_MOUSEMOVE`
/// came since the last `WM_MOUSELEAVE` (or since the state was made);
/// otherwise it is just a move.
pub proof fn lemma_enter_exactly_on_first_move_since_leave(calls: Seq<CursorCall>)
    ensures
        mouse_move_emissions(inside_after(false, calls)) == (if moved_since_leave(calls) {
            seq![MouseMoveEmission::Move]
        } else {
            seq![MouseMoveEmission::Enter, MouseMoveEmission::Move]
        }),
{
    lemma_inside_after(calls);
}

proof fn lemma_inside_after(calls: Seq<CursorCall>)
    ensures
        inside_after(false, calls) == moved_since_leave(calls),
        -1 <= last_leave(calls) < calls.len(),
    decreases calls.len(),
{
    if calls.len() > 0 {
        let p = calls.drop_last();
        let n = calls.len() - 1;
        lemma_inside_after(p);
        assert(calls[n] == calls.last());
        assert forall|i: int| 0 <= i < n implies #[trigger] calls[i] == p[i] by {}
        if calls.last() == CursorCall::MouseMove {
            assert(last_leave(calls) == last_leave(p));
            assert(calls[n] == CursorCall::MouseMove);
        } else if calls.last() == CursorCall::MouseLeave {
            assert(last_leave(calls) == n);
        } else {
            assert(last_leave(calls) == last_leave(p));
            if moved_since_leave(p) {
                let i = choose|i: int| last_leave(p) < i < p.len() && #[trigger] p[i] == CursorCall::MouseMove;
                assert(calls[i] == CursorCall::MouseMove);
            }
            if moved_since_leave(calls) {
                let i = choose|i: int| last_leave(calls) < i < calls.len() && #[trigger] calls[i] == CursorCall::MouseMove;
                assert(i < n);
                assert(p[i] == CursorCall::MouseMove);
            }
        }
    }
}

} // verus!
