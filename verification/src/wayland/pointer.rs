//! Pointer bookkeeping for reducing `wl_pointer` event streams.
//!
//! The tracker keeps the serial of the latest `enter`, the buttons held, and
//! the integer scroll signals of the current frame (the axis source, the
//! high-resolution `value120` steps and the discrete detents). Wayland groups
//! the axis events of one scroll between `frame` events from protocol
//! version 5 on; earlier versions have no `frame`, so each axis event is its
//! own scroll. The caller keeps the floating-point position and continuous
//! axis values and applies these decisions to them.

use vstd::prelude::*;

use crate::pointer::{PointerButton, PointerButtons};
use crate::wayland::mapping::{self, axis_scroll, evdev_pointer_button, AxisScroll, AxisSource};

verus! {

/// A `wl_pointer` button state.
#[derive(Clone, Copy, Debug, PartialEq, Eq, Structural, Hash)]
pub enum WlButtonState {
    /// The button was pressed.
    Pressed,
    /// The button was released.
    Released,
    /// A state value this protocol version does not know.
    Unknown(u32),
}

/// A `wl_pointer` scroll axis.
#[derive(Clone, Copy, Debug, PartialEq, Eq, Structural, Hash)]
pub enum WlAxis {
    /// The vertical axis.
    VerticalScroll,
    /// The horizontal axis.
    HorizontalScroll,
    /// An axis value this protocol version does not know.
    Unknown(u32),
}

/// A button event to emit.
#[derive(Clone, Copy, Debug, PartialEq, Eq, Structural, Hash)]
pub struct ButtonChange {
    /// Whether the button went down (`true`) or up.
    pub pressed: bool,
    /// The button, or `None` for a code with no mapping.
    pub button: Option<PointerButton>,
    /// The buttons held after the change, as stamped on the event's state.
    pub buttons: PointerButtons,
}

/// Adds a step to one component of an `(x, y)` pair for a known axis (with
/// two's-complement wrap-around).
pub open spec fn add_on_axis(pair: (i32, i32), axis: WlAxis, v: i32) -> (i32, i32) {
    match axis {
        WlAxis::VerticalScroll => (pair.0, pair.1.wrapping_add(v)),
        WlAxis::HorizontalScroll => (pair.0.wrapping_add(v), pair.1),
        WlAxis::Unknown(_) => pair,
    }
}

/// Tracks a seat pointer between events.
#[derive(Clone, Copy, Debug, PartialEq, Eq)]
pub struct PointerTracker {
    enter_serial: Option<u32>,
    frame_batched: bool,
    buttons: PointerButtons,
    source: Option<AxisSource>,
    value120: (i32, i32),
    discrete: (i32, i32),
}

impl PointerTracker {
    /// The serial of the latest `enter` while over a surface.
    pub closed spec fn serial(self) -> Option<u32> {
        self.enter_serial
    }

    /// Whether axis events wait for a `frame`.
    pub closed spec fn batched(self) -> bool {
        self.frame_batched
    }

    /// The buttons held.
    pub closed spec fn held(self) -> PointerButtons {
        self.buttons
    }

    /// The scroll signals of the current frame: source, `value120`, detents.
    pub closed spec fn axes(self) -> (Option<AxisSource>, (i32, i32), (i32, i32)) {
        (self.source, self.value120, self.discrete)
    }

    /// A tracker for a `wl_pointer` bound at protocol `version`: axis events
    /// wait for a `frame` from version 5 on.
    pub fn for_version(version: u32) -> (t: PointerTracker)
        ensures
            t.batched() == (version >= 5),
            t.serial() is None,
            t.held() == PointerButtons::none(),
            t.axes() == (None::<AxisSource>, (0i32, 0i32), (0i32, 0i32)),
    {
        PointerTracker {
            enter_serial: None,
            frame_batched: version >= 5,
            buttons: PointerButtons::new(),
            source: None,
            value120: (0, 0),
            discrete: (0, 0),
        }
    }

    /// The serial of the most recent `enter`, while the pointer is over a
    /// surface; `wl_pointer::set_cursor` needs it.
    pub fn enter_serial(&self) -> (r: Option<u32>)
        ensures
            r == self.serial(),
    {
        self.enter_serial
    }

    /// Whether axis events wait for a `frame` (protocol version 5 and later).
    pub fn frame_batched(&self) -> (r: bool)
        ensures
            r == self.batched(),
    {
        self.frame_batched
    }

    /// The buttons held.
    pub fn buttons(&self) -> (r: PointerButtons)
        ensures
            r == self.held(),
    {
        self.buttons
    }

    /// Handle an `enter`: remember its serial.
    pub fn enter(&mut self, serial: u32)
        ensures
            final(self).serial() == Some(serial),
            final(self).held() == old(self).held(),
            final(self).axes() == old(self).axes(),
            final(self).batched() == old(self).batched(),
    {
        self.enter_serial = Some(serial);
    }

    /// Handle a `leave`: forget the serial.
    pub fn leave(&mut self)
        ensures
            final(self).serial() is None,
            final(self).held() == old(self).held(),
            final(self).axes() == old(self).axes(),
            final(self).batched() == old(self).batched(),
    {
        self.enter_serial = None;
    }

    /// Handle a `button`: a press adds the mapped button to the held set and
    /// a release removes it (an unmapped code changes nothing but is still
    /// reported); an unknown state reports nothing.
    pub fn button(&mut self, code: u32, state: WlButtonState) -> (r: Option<ButtonChange>)
        ensures
            ({
                let b = evdev_pointer_button(code);
                match state {
                    WlButtonState::Pressed => {
                        let held = match b { Some(x) => old(self).held().inserted(x), None => old(self).held() };
                        &&& r == Some(ButtonChange { pressed: true, button: b, buttons: held })
                        &&& final(self).held() == held
                    },
                    WlButtonState::Released => {
                        let held = match b { Some(x) => old(self).held().removed(x), None => old(self).held() };
                        &&& r == Some(ButtonChange { pressed: false, button: b, buttons: held })
                        &&& final(self).held() == held
                    },
                    WlButtonState::Unknown(_) => r is None && final(self).held() == old(self).held(),
                }
            }),
            final(self).serial() == old(self).serial(),
            final(self).axes() == old(self).axes(),
            final(self).batched() == old(self).batched(),
    {
        let button = mapping::pointer_button_from_evdev(code);
        match state {
            WlButtonState::Pressed => {
                if let Some(b) = button {
                    self.buttons.insert(b);
                }
                Some(ButtonChange { pressed: true, button, buttons: self.buttons })
            },
            WlButtonState::Released => {
                if let Some(b) = button {
                    self.buttons.remove(b);
                }
                Some(ButtonChange { pressed: false, button, buttons: self.buttons })
            },
            WlButtonState::Unknown(_) => None,
        }
    }

    /// Handle an `axis` (continuous value) event: returns whether the scroll
    /// is flushed at once, which is so exactly when axis events do not wait
    /// for a `frame` (protocol versions before 5). The continuous value
    /// itself is summed by the caller; nothing here changes.
    pub fn axis(&self) -> (flush_now: bool)
        ensures
            flush_now == !self.batched(),
    {
        !self.frame_batched
    }

    /// Handle an `axis_source`: a known source becomes the frame's source.
    pub fn axis_source(&mut self, source: Option<AxisSource>)
        ensures
            final(self).axes() == (if source is Some { source } else { old(self).axes().0 }, old(self).axes().1, old(self).axes().2),
            final(self).serial() == old(self).serial(),
            final(self).held() == old(self).held(),
            final(self).batched() == old(self).batched(),
    {
        if source.is_some() {
            self.source = source;
        }
    }

    /// Handle an `axis_value120`: add the high-resolution steps to the
    /// frame's sum for the axis.
    pub fn axis_value120(&mut self, axis: WlAxis, value120: i32)
        ensures
            final(self).axes() == (old(self).axes().0, add_on_axis(old(self).axes().1, axis, value120), old(self).axes().2),
            final(self).serial() == old(self).serial(),
            final(self).held() == old(self).held(),
            final(self).batched() == old(self).batched(),
    {
        self.value120 = add_to_axis(self.value120, axis, value120);
    }

    /// Handle an `axis_discrete`: add the detents to the frame's sum for the
    /// axis.
    pub fn axis_discrete(&mut self, axis: WlAxis, discrete: i32)
        ensures
            final(self).axes() == (old(self).axes().0, old(self).axes().1, add_on_axis(old(self).axes().2, axis, discrete)),
            final(self).serial() == old(self).serial(),
            final(self).held() == old(self).held(),
            final(self).batched() == old(self).batched(),
    {
        self.discrete = add_to_axis(self.discrete, axis, discrete);
    }

    /// Close the frame's scroll: decide the scroll from the frame's signals
    /// (`has_value` says whether the continuous value is non-zero) and reset
    /// them.
    pub fn flush_scroll(&mut self, has_value: bool) -> (r: AxisScroll)
        ensures
            r == axis_scroll(old(self).axes().0, old(self).axes().1, old(self).axes().2, has_value),
            final(self).axes() == (None::<AxisSource>, (0i32, 0i32), (0i32, 0i32)),
            final(self).serial() == old(self).serial(),
            final(self).held() == old(self).held(),
            final(self).batched() == old(self).batched(),
    {
        let r = mapping::axis_scroll_from_frame(self.source, self.value120, self.discrete, has_value);
        self.source = None;
        self.value120 = (0, 0);
        self.discrete = (0, 0);
        r
    }
}

impl Default for PointerTracker {
    /// A tracker for the current protocol, where axis events wait for a
    /// `frame`.
    fn default() -> (t: PointerTracker)
        ensures
            t.batched(),
            t.serial() is None,
            t.held() == PointerButtons::none(),
            t.axes() == (None::<AxisSource>, (0i32, 0i32), (0i32, 0i32)),
    {
        PointerTracker::for_version(5)
    }
}

/// A frame whose signals were reset by a flush, and which carries no
/// continuous value, scrolls nothing: a second `frame` right after one emits
/// no scroll.
pub proof fn lemma_flushed_frame_scrolls_nothing()
    ensures
        axis_scroll(None, (0i32, 0i32), (0i32, 0i32), false) == AxisScroll::Nothing,
{
}

/// Add `v` to the component of `pair` for `axis`, wrapping on overflow.
fn add_to_axis(pair: (i32, i32), axis: WlAxis, v: i32) -> (r: (i32, i32))
    ensures
        r == add_on_axis(pair, axis, v),
{
    match axis {
        WlAxis::VerticalScroll => (pair.0, pair.1.wrapping_add(v)),
        WlAxis::HorizontalScroll => (pair.0.wrapping_add(v), pair.1),
        WlAxis::Unknown(_) => pair,
    }
}

/// What a call on a [`PointerTracker`] does to its enter serial: `enter`
/// with a serial, `leave`, or any other method, which keeps it.
#[derive(Clone, Copy, Debug, PartialEq, Eq, Structural, Hash)]
pub enum SerialCall {
    /// `enter(serial)`.
    Enter(u32),
    /// `leave`.
    Leave,
    /// Any other method.
    Other,
}

/// The enter serial after `calls`, starting from `serial`, as the methods'
/// contracts say one call at a time.
pub open spec fn serial_after(serial: Option<u32>, calls: Seq<SerialCall>) -> Option<u32>
    decreases calls.len(),
{
    if calls.len() == 0 {
        serial
    } else {
        match calls.last() {
            SerialCall::Enter(s) => Some(s),
            SerialCall::Leave => None,
            SerialCall::Other => serial_after(serial, calls.drop_last()),
        }
    }
}

/// The index of the last `enter` or `leave` in `calls`, or `-1` without one.
pub open spec fn last_enter_or_leave(calls: Seq<SerialCall>) -> int
    decreases calls.len(),
{
    if calls.len() == 0 {
        -1
    } else if calls.last() != SerialCall::Other {
        calls.len() - 1
    } else {
        last_enter_or_leave(calls.drop_last())
    }
}

/// Over any sequence of calls, the enter serial is that of the last `enter`
/// unless a `leave` came after it, in which case there is none; with neither
/// it is the serial the tracker started with (none for a new tracker).
pub proof fn lemma_serial_is_last_enter(serial: Option<u32>, calls: Seq<SerialCall>)
    ensures
        -1 <= last_enter_or_leave(calls) < calls.len(),
        serial_after(serial, calls) == (if last_enter_or_leave(calls) < 0 {
            serial
        } else {
            match calls[last_enter_or_leave(calls)] {
                SerialCall::Enter(s) => Some(s),
                _ => None,
            }
        }),
    decreases calls.len(),
{
    if calls.len() > 0 {
        let p = calls.drop_last();
        lemma_serial_is_last_enter(serial, p);
        assert(calls[calls.len() - 1] == calls.last());
        if calls.last() == SerialCall::Other {
            let k = last_enter_or_leave(p);
            if k >= 0 {
                assert(calls[k] == p[k]);
            }
        }
    }
}

/// What a call on a [`PointerTracker`] does to the frame's scroll signals:
/// `axis_source`, `axis_value120`, `axis_discrete`, or any other call that
/// keeps them (`axis`, `button`, `enter`, `leave`).
#[derive(Clone, Copy, Debug, PartialEq, Eq, Structural, Hash)]
pub enum AxisCall {
    /// `axis_source(source)`.
    Source(Option<AxisSource>),
    /// `axis_value120(axis, steps)`.
    Value120(WlAxis, i32),
    /// `axis_discrete(axis, detents)`.
    Discrete(WlAxis, i32),
    /// Any other call but `flush_scroll`.
    Other,
}

/// The frame's scroll signals after `calls`, as the methods' contracts say
/// one call at a time.
pub open spec fn axes_after(
    axes: (Option<AxisSource>, (i32, i32), (i32, i32)),
    calls: Seq<AxisCall>,
) -> (Option<AxisSource>, (i32, i32), (i32, i32))
    decreases calls.len(),
{
    if calls.len() == 0 {
        axes
    } else {
        let (source, v120, disc) = axes_after(axes, calls.drop_last());
        match calls.last() {
            AxisCall::Source(x) => (if x is Some { x } else { source }, v120, disc),
            AxisCall::Value120(a, v) => (source, add_on_axis(v120, a, v), disc),
            AxisCall::Discrete(a, v) => (source, v120, add_on_axis(disc, a, v)),
            AxisCall::Other => (source, v120, disc),
        }
    }
}

/// The last source reported in `calls`, if any.
pub open spec fn last_source(calls: Seq<AxisCall>) -> Option<AxisSource>
    decreases calls.len(),
{
    if calls.len() == 0 {
        None
    } else {
        match calls.last() {
            AxisCall::Source(Some(x)) => Some(x),
            _ => last_source(calls.drop_last()),
        }
    }
}

/// The high-resolution steps a call adds on the vertical (or else the
/// horizontal) axis.
pub open spec fn steps_on(c: AxisCall, vertical: bool) -> i32 {
    match c {
        AxisCall::Value120(WlAxis::VerticalScroll, v) => if vertical { v } else { 0 },
        AxisCall::Value120(WlAxis::HorizontalScroll, v) => if vertical { 0 } else { v },
        _ => 0,
    }
}

/// The detents a call adds on the vertical (or else the horizontal) axis.
pub open spec fn detents_on(c: AxisCall, vertical: bool) -> i32 {
    match c {
        AxisCall::Discrete(WlAxis::VerticalScroll, v) => if vertical { v } else { 0 },
        AxisCall::Discrete(WlAxis::HorizontalScroll, v) => if vertical { 0 } else { v },
        _ => 0,
    }
}

/// The two's-complement sum of what `f` gives for each call.
pub open spec fn wrapping_sum(calls: Seq<AxisCall>, f: spec_fn(AxisCall) -> i32) -> i32
    decreases calls.len(),
{
    if calls.len() == 0 {
        0
    } else {
        wrapping_sum(calls.drop_last(), f).wrapping_add(f(calls.last()))
    }
}

/// Over one frame's calls, starting from the signals a `flush_scroll` (or a
/// new tracker) leaves, the frame holds the last source reported and, per
/// axis, the sums of the high-resolution steps and of the detents (wrapping
/// at `i32`); events of unknown axes count for nothing. `flush_scroll` then
/// decides the scroll from exactly these (see [`axis_scroll`]) and resets
/// them, and `axis` flushes at once only before protocol version 5.
pub proof fn lemma_frame_sums_axes(calls: Seq<AxisCall>)
    ensures
        axes_after((None, (0i32, 0i32), (0i32, 0i32)), calls) == (
            last_source(calls),
            (
                wrapping_sum(calls, |c: AxisCall| steps_on(c, false)),
                wrapping_sum(calls, |c: AxisCall| steps_on(c, true)),
            ),
            (
                wrapping_sum(calls, |c: AxisCall| detents_on(c, false)),
                wrapping_sum(calls, |c: AxisCall| detents_on(c, true)),
            ),
        ),
    decreases calls.len(),
{
    if calls.len() > 0 {
        lemma_frame_sums_axes(calls.drop_last());
        let p = calls.drop_last();
        let h120 = wrapping_sum(p, |c: AxisCall| steps_on(c, false));
        let v120 = wrapping_sum(p, |c: AxisCall| steps_on(c, true));
        let hd = wrapping_sum(p, |c: AxisCall| detents_on(c, false));
        let vd = wrapping_sum(p, |c: AxisCall| detents_on(c, true));
        assert(h120.wrapping_add(0) == h120);
        assert(v120.wrapping_add(0) == v120);
        assert(hd.wrapping_add(0) == hd);
        assert(vd.wrapping_add(0) == vd);
    }
}

} // verus!
