//! The decisions of the `winit` window-event reducer that do not involve
//! coordinates: how a touch phase becomes a pointer event and which pointer
//! identity a touch carries.

use vstd::prelude::*;

use crate::pointer::{PointerButton, PointerButtons, PointerId, PointerInfo, PointerType};

verus! {

/// The phase of a `winit` touch event.
#[derive(Clone, Copy, Debug, PartialEq, Eq, Structural, Hash)]
pub enum WinitTouchPhase {
    /// The finger touched the surface.
    Started,
    /// The finger moved.
    Moved,
    /// The finger was lifted.
    Ended,
    /// The system cancelled the touch.
    Cancelled,
}

/// The pointer event a touch becomes.
#[derive(Clone, Copy, Debug, PartialEq, Eq, Structural, Hash)]
pub enum TouchEventKind {
    /// A pointer down, with no button.
    Down,
    /// A pointer move.
    Move,
    /// A pointer up, with no button.
    Up,
    /// A pointer cancel.
    Cancel,
}

/// The pointer event a touch in `phase` becomes, and whether its pressure
/// is zero (the finger is off the surface: ended or cancelled); otherwise
/// the caller takes the pressure from the reported force.
pub fn touch_event_kind(phase: WinitTouchPhase) -> (r: (TouchEventKind, bool))
    ensures
        r.0 == match phase {
            WinitTouchPhase::Started => TouchEventKind::Down,
            WinitTouchPhase::Moved => TouchEventKind::Move,
            WinitTouchPhase::Ended => TouchEventKind::Up,
            WinitTouchPhase::Cancelled => TouchEventKind::Cancel,
        },
        r.1 == (phase == WinitTouchPhase::Ended || phase == WinitTouchPhase::Cancelled),
{
    match phase {
        WinitTouchPhase::Started => (TouchEventKind::Down, false),
        WinitTouchPhase::Moved => (TouchEventKind::Move, false),
        WinitTouchPhase::Ended => (TouchEventKind::Up, true),
        WinitTouchPhase::Cancelled => (TouchEventKind::Cancel, true),
    }
}

/// The pointer of a `winit` touch with finger `id`: a touch pointer whose
/// identity is the id plus one, saturating at `u64::MAX`, so that it is never
/// zero.
pub fn winit_touch_pointer(id: u64) -> (p: PointerInfo)
    ensures
        p.pointer_type == PointerType::Touch,
        p.pointer_id matches Some(q) && q.value() == (if id == u64::MAX {
            u64::MAX as int
        } else {
            id + 1
        }),
{
    PointerInfo { pointer_id: PointerId::new(id.saturating_add(1)), pointer_type: PointerType::Touch }
}

/// The buttons held after a `winit` mouse-button event: a press of a known
/// button adds it and a release removes it; a button with no mapping
/// changes nothing. The event itself is a down for a press and an up for a
/// release, with the button as given.
pub fn mouse_input(held: PointerButtons, button: Option<PointerButton>, pressed: bool) -> (r: PointerButtons)
    ensures
        r == match button {
            Some(b) => if pressed {
                held.inserted(b)
            } else {
                held.removed(b)
            },
            None => held,
        },
{
    let mut r = held;
    if let Some(b) = button {
        if pressed {
            r.insert(b);
        } else {
            r.remove(b);
        }
    }
    r
}

} // verus!
