//! Aggregation of a `wl_seat`'s per-device reducers.
//!
//! A seat advertises which devices it has through its `capabilities` event.
//! [`SeatReducer`] tracks those capabilities and owns the matching device
//! reducers, created the first time a device's event arrives and dropped when
//! the seat withdraws the device, so that losing a device clears its
//! transient state (held buttons, held keys) instead of leaving it stuck.
//! The keyboard reducer is this crate's; the pointer and touch reducers are
//! the caller's types `P` and `T`.

use vstd::prelude::*;

use crate::keyboard::KeyboardEvent;
use crate::wayland::keyboard::{reduce_step, KeyboardEventReducer, KeyboardInput};

verus! {

/// The `wl_seat` capability bit of a pointer.
pub const CAPABILITY_POINTER: u32 = 1;
/// The `wl_seat` capability bit of a keyboard.
pub const CAPABILITY_KEYBOARD: u32 = 2;
/// The `wl_seat` capability bit of a touchscreen.
pub const CAPABILITY_TOUCH: u32 = 4;

/// The input devices a seat currently advertises.
#[derive(Clone, Copy, Debug, PartialEq, Eq, Structural, Hash)]
pub struct SeatCapabilities {
    /// The seat has a pointer, such as a mouse or touchpad.
    pub pointer: bool,
    /// The seat has one or more keyboards.
    pub keyboard: bool,
    /// The seat has a touchscreen.
    pub touch: bool,
}

impl Default for SeatCapabilities {
    /// No device.
    fn default() -> (c: SeatCapabilities)
        ensures
            c == (SeatCapabilities { pointer: false, keyboard: false, touch: false }),
    {
        SeatCapabilities { pointer: false, keyboard: false, touch: false }
    }
}

/// The capabilities of a `wl_seat` capability bitmask: bit 0 is the pointer,
/// bit 1 the keyboard and bit 2 the touchscreen; bits a newer protocol
/// version defines are ignored rather than making the whole mask unreadable.
pub open spec fn capabilities_of(bits: u32) -> SeatCapabilities {
    SeatCapabilities {
        pointer: bits % 2 == 1,
        keyboard: (bits / 2) % 2 == 1,
        touch: (bits / 4) % 2 == 1,
    }
}

/// Convert a `wl_seat` capability bitmask into [`SeatCapabilities`], keeping
/// the known bits of a mask that also carries unknown ones.
pub fn seat_capabilities(bits: u32) -> (c: SeatCapabilities)
    ensures
        c == capabilities_of(bits),
{
    assert((bits & 1u32 != 0) == (bits % 2 == 1)) by (bit_vector);
    assert((bits & 2u32 != 0) == ((bits / 2) % 2 == 1)) by (bit_vector);
    assert((bits & 4u32 != 0) == ((bits / 4) % 2 == 1)) by (bit_vector);
    SeatCapabilities {
        pointer: bits & CAPABILITY_POINTER != 0,
        keyboard: bits & CAPABILITY_KEYBOARD != 0,
        touch: bits & CAPABILITY_TOUCH != 0,
    }
}

/// A `wl_seat` event, as the plain values the reducer reads.
#[derive(Clone, Copy, Debug, PartialEq, Eq, Structural, Hash)]
pub enum SeatInput {
    /// The seat's capability bitmask.
    Capabilities(u32),
    /// Any other seat event (such as its name).
    Other,
}

/// Aggregates a seat's pointer (`P`), keyboard and touch (`T`) reducers.
pub struct SeatReducer<P, T> {
    version: Option<u32>,
    capabilities: SeatCapabilities,
    pointer: Option<P>,
    keyboard: Option<KeyboardEventReducer>,
    touch: Option<T>,
}

impl<P, T> SeatReducer<P, T> {
    /// The protocol version the seat was bound at, if given.
    pub closed spec fn bound_version(self) -> Option<u32> {
        self.version
    }

    /// The capabilities last advertised.
    pub closed spec fn caps(self) -> SeatCapabilities {
        self.capabilities
    }

    /// The pointer reducer, if created.
    pub closed spec fn pointer_reducer(self) -> Option<P> {
        self.pointer
    }

    /// The keyboard reducer, if created.
    pub closed spec fn keyboard_reducer(self) -> Option<KeyboardEventReducer> {
        self.keyboard
    }

    /// The touch reducer, if created.
    pub closed spec fn touch_reducer(self) -> Option<T> {
        self.touch
    }

    /// The reducer's invariant: the keyboard reducer, if any, is well formed.
    pub open spec fn wf(self) -> bool {
        self.keyboard_reducer() matches Some(k) ==> k.wf()
    }

    /// A reducer with no capability and no device reducer, whose pointer
    /// reducer (once created) groups axis events by `frame`.
    pub fn new() -> (s: SeatReducer<P, T>)
        ensures
            s.wf(),
            s.bound_version() is None,
            s.caps() == (SeatCapabilities { pointer: false, keyboard: false, touch: false }),
            s.pointer_reducer() is None,
            s.keyboard_reducer() is None,
            s.touch_reducer() is None,
    {
        SeatReducer {
            version: None,
            capabilities: SeatCapabilities { pointer: false, keyboard: false, touch: false },
            pointer: None,
            keyboard: None,
            touch: None,
        }
    }

    /// A reducer for a `wl_seat` bound at protocol `version`; the version is
    /// handed to the pointer reducer when it is created.
    pub fn for_version(version: u32) -> (s: SeatReducer<P, T>)
        ensures
            s.wf(),
            s.bound_version() == Some(version),
            s.caps() == (SeatCapabilities { pointer: false, keyboard: false, touch: false }),
            s.pointer_reducer() is None,
            s.keyboard_reducer() is None,
            s.touch_reducer() is None,
    {
        SeatReducer {
            version: Some(version),
            capabilities: SeatCapabilities { pointer: false, keyboard: false, touch: false },
            pointer: None,
            keyboard: None,
            touch: None,
        }
    }

    /// The protocol version the seat was bound at, if given.
    pub fn version(&self) -> (r: Option<u32>)
        ensures
            r == self.bound_version(),
    {
        self.version
    }

    /// The capabilities most recently advertised by the seat; all `false`
    /// until a `capabilities` event arrives.
    pub fn capabilities(&self) -> (r: SeatCapabilities)
        ensures
            r == self.caps(),
    {
        self.capabilities
    }

    /// The pointer reducer, once a pointer event has been routed to it.
    pub fn pointer(&self) -> (r: Option<&P>)
        ensures
            r == match self.pointer_reducer() {
                Some(p) => Some(&p),
                None => None::<&P>,
            },
    {
        self.pointer.as_ref()
    }

    /// The keyboard reducer, once a keyboard event has been routed to it.
    pub fn keyboard(&self) -> (r: Option<&KeyboardEventReducer>)
        ensures
            r == match self.keyboard_reducer() {
                Some(k) => Some(&k),
                None => None::<&KeyboardEventReducer>,
            },
    {
        self.keyboard.as_ref()
    }

    /// The touch reducer, once a touch event has been routed to it.
    pub fn touch(&self) -> (r: Option<&T>)
        ensures
            r == match self.touch_reducer() {
                Some(t) => Some(&t),
                None => None::<&T>,
            },
    {
        self.touch.as_ref()
    }

    /// Process a `wl_seat` event, returning the seat's capabilities.
    ///
    /// A `capabilities` event updates the tracked capabilities and drops the
    /// reducer of every device the seat no longer has; other events change
    /// nothing.
    pub fn reduce_seat(&mut self, event: SeatInput) -> (c: SeatCapabilities)
        requires
            old(self).wf(),
        ensures
            final(self).wf(),
            c == final(self).caps(),
            final(self).bound_version() == old(self).bound_version(),
            match event {
                SeatInput::Capabilities(bits) => {
                    let caps = capabilities_of(bits);
                    &&& final(self).caps() == caps
                    &&& final(self).pointer_reducer() == (if caps.pointer { old(self).pointer_reducer() } else { None })
                    &&& final(self).keyboard_reducer() == (if caps.keyboard { old(self).keyboard_reducer() } else { None })
                    &&& final(self).touch_reducer() == (if caps.touch { old(self).touch_reducer() } else { None })
                },
                SeatInput::Other => {
                    &&& final(self).caps() == old(self).caps()
                    &&& final(self).pointer_reducer() == old(self).pointer_reducer()
                    &&& final(self).keyboard_reducer() == old(self).keyboard_reducer()
                    &&& final(self).touch_reducer() == old(self).touch_reducer()
                },
            },
    {
        if let SeatInput::Capabilities(bits) = event {
            let capabilities = seat_capabilities(bits);
            self.capabilities = capabilities;
            if !capabilities.pointer {
                self.pointer = None;
            }
            if !capabilities.keyboard {
                self.keyboard = None;
            }
            if !capabilities.touch {
                self.touch = None;
            }
        }
        self.capabilities
    }

    /// Process a `wl_keyboard` event through the keyboard reducer, creating
    /// it on first use.
    pub fn reduce_keyboard(&mut self, event: &KeyboardInput) -> (r: Option<KeyboardEvent>)
        requires
            old(self).wf(),
        ensures
            final(self).wf(),
            final(self).keyboard_reducer() is Some,
            ({
                let after = final(self).keyboard_reducer().unwrap();
                match old(self).keyboard_reducer() {
                    Some(k) => reduce_step(k.held(), k.repeat(), after.held(), after.repeat(), *event, r),
                    None => reduce_step(Seq::empty(), None, after.held(), after.repeat(), *event, r),
                }
            }),
            final(self).caps() == old(self).caps(),
            final(self).pointer_reducer() == old(self).pointer_reducer(),
            final(self).touch_reducer() == old(self).touch_reducer(),
            final(self).bound_version() == old(self).bound_version(),
    {
        let mut keyboard = match self.keyboard.take() {
            Some(k) => k,
            None => KeyboardEventReducer::new(),
        };
        let r = keyboard.reduce(event);
        self.keyboard = Some(keyboard);
        r
    }

    /// Take the pointer reducer out, to route an event through it; put it
    /// back with [`SeatReducer::put_pointer`].
    pub fn take_pointer(&mut self) -> (r: Option<P>)
        requires
            old(self).wf(),
        ensures
            final(self).wf(),
            r == old(self).pointer_reducer(),
            final(self).pointer_reducer() is None,
            final(self).caps() == old(self).caps(),
            final(self).keyboard_reducer() == old(self).keyboard_reducer(),
            final(self).touch_reducer() == old(self).touch_reducer(),
            final(self).bound_version() == old(self).bound_version(),
    {
        self.pointer.take()
    }

    /// Install the pointer reducer.
    pub fn put_pointer(&mut self, pointer: P)
        requires
            old(self).wf(),
        ensures
            final(self).wf(),
            final(self).pointer_reducer() == Some(pointer),
            final(self).caps() == old(self).caps(),
            final(self).keyboard_reducer() == old(self).keyboard_reducer(),
            final(self).touch_reducer() == old(self).touch_reducer(),
            final(self).bound_version() == old(self).bound_version(),
    {
        self.pointer = Some(pointer);
    }

    /// Take the touch reducer out, to route an event through it; put it back
    /// with [`SeatReducer::put_touch`].
    pub fn take_touch(&mut self) -> (r: Option<T>)
        requires
            old(self).wf(),
        ensures
            final(self).wf(),
            r == old(self).touch_reducer(),
            final(self).touch_reducer() is None,
            final(self).caps() == old(self).caps(),
            final(self).keyboard_reducer() == old(self).keyboard_reducer(),
            final(self).pointer_reducer() == old(self).pointer_reducer(),
            final(self).bound_version() == old(self).bound_version(),
    {
        self.touch.take()
    }

    /// Install the touch reducer.
    pub fn put_touch(&mut self, touch: T)
        requires
            old(self).wf(),
        ensures
            final(self).wf(),
            final(self).touch_reducer() == Some(touch),
            final(self).caps() == old(self).caps(),
            final(self).keyboard_reducer() == old(self).keyboard_reducer(),
            final(self).pointer_reducer() == old(self).pointer_reducer(),
            final(self).bound_version() == old(self).bound_version(),
    {
        self.touch = Some(touch);
    }
}

impl<P, T> Default for SeatReducer<P, T> {
    /// A reducer with no capability and no device reducer.
    fn default() -> (s: SeatReducer<P, T>)
        ensures
            s.wf(),
            s.bound_version() is None,
            s.caps() == (SeatCapabilities { pointer: false, keyboard: false, touch: false }),
            s.pointer_reducer() is None,
            s.keyboard_reducer() is None,
            s.touch_reducer() is None,
    {
        SeatReducer::new()
    }
}

} // verus!
