//! Tool-state bookkeeping for reducing `zwp_tablet_tool_v2` event streams.
//!
//! The tablet protocol groups the events of one logical update between
//! `frame` events, in no specified order. The tracker accumulates the changes
//! of a frame and, on `frame`, decides which pointer events to emit and with
//! which button set: a proximity-in becomes an enter; a tip press or release
//! (which supersedes a bare move in the same frame) becomes a down or up of
//! the tip button; otherwise any motion or axis change becomes a move; then
//! each barrel-button change in arrival order becomes a down or up; and a
//! proximity-out becomes a leave, after which the per-proximity state is
//! reset.
//!
//! The tip press uses the pressure reported for the contact, or the
//! active-unknown pressure when none was reported since the tip last went up
//! or the tool last left proximity; the tip release sets the released
//! pressure. The caller keeps the floating-point position, pressure, tilt and
//! slider values and applies these decisions to them.

use vstd::prelude::*;

use crate::pointer::{PointerButton, PointerButtons, PointerInfo, PointerType};
use crate::wayland::mapping::{
    self, pen_button_from_evdev, primary_pointer_info, tool_pointer_type, ToolType,
};

verus! {

/// A barrel-button state as `zwp_tablet_tool_v2::button` reports it.
#[derive(Clone, Copy, Debug, PartialEq, Eq, Structural, Hash)]
pub enum ToolButtonState {
    /// The button was pressed.
    Pressed,
    /// The button was released.
    Released,
    /// A state value this protocol version does not know.
    Unknown(u32),
}

/// A pointer event the tool emits on a frame.
#[derive(Clone, Copy, Debug, PartialEq, Eq, Structural, Hash)]
pub enum ToolEmission {
    /// The tool entered proximity.
    Enter,
    /// A button (or the tip) went down; `None` for an unmapped button.
    Down(Option<PointerButton>),
    /// A button (or the tip) went up; `None` for an unmapped button.
    Up(Option<PointerButton>),
    /// The tool moved or an axis changed.
    Move,
    /// The tool left proximity.
    Leave,
}

/// An emitted event together with the button set its state carries.
#[derive(Clone, Copy, Debug, PartialEq, Eq, Structural, Hash)]
pub struct ToolEvent {
    /// The event.
    pub emission: ToolEmission,
    /// The buttons held, as stamped on the event's state.
    pub buttons: PointerButtons,
}

/// How a frame changes the tool's pressure before its events are emitted.
#[derive(Clone, Copy, Debug, PartialEq, Eq, Structural, Hash)]
pub enum PressureChange {
    /// The pressure is left as it is.
    Keep,
    /// The tip went down with no pressure reported: use the active-unknown
    /// pressure.
    Active,
    /// The tip went up: use the released pressure.
    Released,
}

/// What a frame does.
#[derive(Clone, Debug, PartialEq, Eq)]
pub struct ToolFrame {
    /// The pressure change to apply first.
    pub pressure: PressureChange,
    /// The events to emit, in order.
    pub events: Vec<ToolEvent>,
    /// Whether the tool left proximity, so that its pointer state is reset
    /// (keeping only the time and scale factor) after the events.
    pub reset: bool,
}

/// The changes of the current frame.
#[derive(Clone, Debug, PartialEq, Eq)]
pub struct PendingFrame {
    /// The tool entered proximity.
    pub enter: bool,
    /// The tool left proximity.
    pub leave: bool,
    /// The tool's position or an axis changed.
    pub motion: bool,
    /// The tool tip touched the surface.
    pub tip_down: bool,
    /// The tool tip left the surface.
    pub tip_up: bool,
    /// Barrel-button changes `(button, pressed)` in arrival order.
    pub buttons: Vec<(Option<PointerButton>, bool)>,
}

/// The button set after a button change (unmapped buttons change nothing).
pub open spec fn apply_button(bs: PointerButtons, change: (Option<PointerButton>, bool)) -> PointerButtons {
    match change.0 {
        Some(b) => if change.1 {
            bs.inserted(b)
        } else {
            bs.removed(b)
        },
        None => bs,
    }
}

/// The events of a sequence of barrel-button changes starting from `bs`.
pub open spec fn button_events(bs: PointerButtons, changes: Seq<(Option<PointerButton>, bool)>) -> Seq<ToolEvent>
    decreases changes.len(),
{
    if changes.len() == 0 {
        Seq::empty()
    } else {
        let before = button_events(bs, changes.drop_last());
        let held = buttons_after(bs, changes.drop_last());
        let c = changes.last();
        let after = apply_button(held, c);
        before.push(ToolEvent {
            emission: if c.1 { ToolEmission::Down(c.0) } else { ToolEmission::Up(c.0) },
            buttons: after,
        })
    }
}

/// The button set after a sequence of barrel-button changes.
pub open spec fn buttons_after(bs: PointerButtons, changes: Seq<(Option<PointerButton>, bool)>) -> PointerButtons
    decreases changes.len(),
{
    if changes.len() == 0 {
        bs
    } else {
        apply_button(buttons_after(bs, changes.drop_last()), changes.last())
    }
}

/// The pressure change of a frame with these tip changes, given whether a
/// pressure was reported for the contact.
pub open spec fn frame_pressure(tip_down: bool, tip_up: bool, reported: bool) -> PressureChange {
    if tip_down {
        if reported { PressureChange::Keep } else { PressureChange::Active }
    } else if tip_up {
        PressureChange::Released
    } else {
        PressureChange::Keep
    }
}

/// Whether a pressure counts as reported after a frame with these changes:
/// leaving proximity, or lifting the tip without touching down again in the
/// same frame, forgets it.
pub open spec fn reported_after_frame(leave: bool, tip_down: bool, tip_up: bool, reported: bool) -> bool {
    if leave || (!tip_down && tip_up) { false } else { reported }
}

/// Tracks one tablet tool between frames.
#[derive(Clone, Debug, PartialEq, Eq)]
pub struct TabletToolTracker {
    pointer_type: PointerType,
    tip_button: PointerButton,
    in_proximity: bool,
    proximity_serial: Option<u32>,
    pressure_known: bool,
    buttons: PointerButtons,
    pending: PendingFrame,
}

impl TabletToolTracker {
    /// The pointer kind the tool reports as.
    pub closed spec fn kind(self) -> PointerType {
        self.pointer_type
    }

    /// The button the tool tip maps to.
    pub closed spec fn tip(self) -> PointerButton {
        self.tip_button
    }

    /// The serial of the latest proximity-in while in proximity.
    pub closed spec fn serial(self) -> Option<u32> {
        self.proximity_serial
    }

    /// Whether a pressure was reported for the current contact.
    pub closed spec fn pressure_reported(self) -> bool {
        self.pressure_known
    }

    /// The buttons held.
    pub closed spec fn held(self) -> PointerButtons {
        self.buttons
    }

    /// The changes of the current frame.
    pub closed spec fn frame(self) -> (bool, bool, bool, bool, bool, Seq<(Option<PointerButton>, bool)>) {
        (self.pending.enter, self.pending.leave, self.pending.motion, self.pending.tip_down, self.pending.tip_up, self.pending.buttons@)
    }

    /// A pen, out of proximity, with nothing held and nothing pending.
    pub fn new() -> (t: TabletToolTracker)
        ensures
            t.kind() == PointerType::Pen,
            t.tip() == PointerButton::Primary,
            t.serial() is None,
            !t.pressure_reported(),
            t.held() == PointerButtons::none(),
            t.frame() == (false, false, false, false, false, Seq::<(Option<PointerButton>, bool)>::empty()),
    {
        TabletToolTracker {
            pointer_type: PointerType::Pen,
            tip_button: PointerButton::Primary,
            in_proximity: false,
            proximity_serial: None,
            pressure_known: false,
            buttons: PointerButtons::new(),
            pending: PendingFrame {
                enter: false,
                leave: false,
                motion: false,
                tip_down: false,
                tip_up: false,
                buttons: Vec::new(),
            },
        }
    }

    /// The serial of the most recent `proximity_in`, while the tool is in
    /// proximity; `zwp_tablet_tool_v2::set_cursor` needs it.
    pub fn proximity_serial(&self) -> (r: Option<u32>)
        ensures
            r == self.serial(),
    {
        self.proximity_serial
    }

    /// The tool's pointer identity: the primary pointer of its kind.
    pub fn pointer_info(&self) -> (p: PointerInfo)
        ensures
            p.is_primary(),
            p.pointer_type == self.kind(),
    {
        primary_pointer_info(self.pointer_type)
    }

    /// Handle a `type` event: a known tool type sets the pointer kind and the
    /// tip button; an unknown one changes nothing.
    pub fn set_tool(&mut self, tool: Option<ToolType>)
        ensures
            tool matches Some(t) ==> final(self).kind() == tool_pointer_type(t) && final(self).tip() == (if t == ToolType::Eraser {
                PointerButton::PenEraser
            } else {
                PointerButton::Primary
            }),
            tool is None ==> *final(self) == *old(self),
            tool is Some ==> final(self).serial() == old(self).serial() && final(self).held() == old(self).held()
                && final(self).frame() == old(self).frame() && final(self).pressure_reported() == old(self).pressure_reported(),
    {
        if let Some(t) = tool {
            self.pointer_type = mapping::pointer_type_from_tool(t);
            self.tip_button = mapping::tip_button_from_tool(t);
        }
    }

    /// Handle a `proximity_in`: record the serial and an enter for the frame.
    pub fn proximity_in(&mut self, serial: u32)
        ensures
            final(self).serial() == Some(serial),
            final(self).frame() == (true, old(self).frame().1, old(self).frame().2, old(self).frame().3, old(self).frame().4, old(self).frame().5),
            final(self).held() == old(self).held(),
            final(self).kind() == old(self).kind(),
            final(self).tip() == old(self).tip(),
            final(self).pressure_reported() == old(self).pressure_reported(),
    {
        self.in_proximity = true;
        self.proximity_serial = Some(serial);
        self.pending.enter = true;
    }

    /// Handle a `proximity_out`: the proximity serial is cleared at once, and a
    /// leave is recorded for the frame.
    pub fn proximity_out(&mut self)
        ensures
            final(self).frame() == (old(self).frame().0, true, old(self).frame().2, old(self).frame().3, old(self).frame().4, old(self).frame().5),
            final(self).serial() is None,
            final(self).held() == old(self).held(),
            final(self).kind() == old(self).kind(),
            final(self).tip() == old(self).tip(),
            final(self).pressure_reported() == old(self).pressure_reported(),
    {
        self.proximity_serial = None;
        self.pending.leave = true;
    }

    /// Handle a tip `down`: record it for the frame.
    pub fn tip_down(&mut self)
        ensures
            final(self).frame() == (old(self).frame().0, old(self).frame().1, old(self).frame().2, true, old(self).frame().4, old(self).frame().5),
            final(self).serial() == old(self).serial(),
            final(self).held() == old(self).held(),
            final(self).kind() == old(self).kind(),
            final(self).tip() == old(self).tip(),
            final(self).pressure_reported() == old(self).pressure_reported(),
    {
        self.pending.tip_down = true;
    }

    /// Handle a tip `up`: record it for the frame.
    pub fn tip_up(&mut self)
        ensures
            final(self).frame() == (old(self).frame().0, old(self).frame().1, old(self).frame().2, old(self).frame().3, true, old(self).frame().5),
            final(self).serial() == old(self).serial(),
            final(self).held() == old(self).held(),
            final(self).kind() == old(self).kind(),
            final(self).tip() == old(self).tip(),
            final(self).pressure_reported() == old(self).pressure_reported(),
    {
        self.pending.tip_up = true;
    }

    /// Handle a `motion`, `tilt` or `slider` event: record a move for the
    /// frame.
    pub fn moved(&mut self)
        ensures
            final(self).frame() == (old(self).frame().0, old(self).frame().1, true, old(self).frame().3, old(self).frame().4, old(self).frame().5),
            final(self).serial() == old(self).serial(),
            final(self).held() == old(self).held(),
            final(self).kind() == old(self).kind(),
            final(self).tip() == old(self).tip(),
            final(self).pressure_reported() == old(self).pressure_reported(),
    {
        self.pending.motion = true;
    }

    /// Handle a `pressure` event: the contact's pressure is now known, and a
    /// move is recorded for the frame.
    pub fn pressure_reported_now(&mut self)
        ensures
            final(self).pressure_reported(),
            final(self).frame() == (old(self).frame().0, old(self).frame().1, true, old(self).frame().3, old(self).frame().4, old(self).frame().5),
            final(self).serial() == old(self).serial(),
            final(self).held() == old(self).held(),
            final(self).kind() == old(self).kind(),
            final(self).tip() == old(self).tip(),
    {
        self.pressure_known = true;
        self.pending.motion = true;
    }

    /// Handle a barrel `button` event: a press or release is recorded for the
    /// frame, with the button mapped through the pen-button table; an
    /// unknown state changes nothing.
    pub fn button(&mut self, code: u32, state: ToolButtonState)
        ensures
            state is Unknown ==> *final(self) == *old(self),
            !(state is Unknown) ==> final(self).frame() == (old(self).frame().0, old(self).frame().1, old(self).frame().2, old(self).frame().3, old(self).frame().4,
                old(self).frame().5.push((mapping::pen_evdev_button(code), state == ToolButtonState::Pressed))),
            final(self).serial() == old(self).serial(),
            final(self).held() == old(self).held(),
            final(self).kind() == old(self).kind(),
            final(self).tip() == old(self).tip(),
            final(self).pressure_reported() == old(self).pressure_reported(),
    {
        let b = pen_button_from_evdev(code);
        match state {
            ToolButtonState::Pressed => self.pending.buttons.push((b, true)),
            ToolButtonState::Released => self.pending.buttons.push((b, false)),
            ToolButtonState::Unknown(_) => {},
        }
    }

    /// Handle a `frame`: decide the pressure change, the events and their
    /// button sets, and whether to reset; clear the frame's changes.
    pub fn flush(&mut self) -> (f: ToolFrame)
        ensures
            ({
                let (enter, leave, motion, tip_down, tip_up, changes) = old(self).frame();
                let tip = old(self).tip();
                let b0 = old(self).held();
                let enter_events = if enter {
                    seq![ToolEvent { emission: ToolEmission::Enter, buttons: b0 }]
                } else {
                    Seq::empty()
                };
                let b1 = if tip_down { b0.inserted(tip) } else if tip_up { b0.removed(tip) } else { b0 };
                let tip_events = if tip_down {
                    seq![ToolEvent { emission: ToolEmission::Down(Some(tip)), buttons: b1 }]
                } else if tip_up {
                    seq![ToolEvent { emission: ToolEmission::Up(Some(tip)), buttons: b1 }]
                } else if motion {
                    seq![ToolEvent { emission: ToolEmission::Move, buttons: b1 }]
                } else {
                    Seq::empty()
                };
                let b2 = buttons_after(b1, changes);
                let leave_events = if leave {
                    seq![ToolEvent { emission: ToolEmission::Leave, buttons: b2 }]
                } else {
                    Seq::empty()
                };
                &&& f.events@ == enter_events + tip_events + button_events(b1, changes) + leave_events
                &&& f.pressure == frame_pressure(tip_down, tip_up, old(self).pressure_reported())
                &&& f.reset == leave
                &&& final(self).held() == (if leave { PointerButtons::none() } else { b2 })
                &&& final(self).pressure_reported() == reported_after_frame(leave, tip_down, tip_up, old(self).pressure_reported())
                &&& final(self).serial() == (if leave { None } else { old(self).serial() })
                &&& final(self).kind() == old(self).kind()
                &&& final(self).tip() == old(self).tip()
                &&& final(self).frame() == (false, false, false, false, false, Seq::<(Option<PointerButton>, bool)>::empty())
            }),
    {
        let mut pending = PendingFrame {
            enter: false,
            leave: false,
            motion: false,
            tip_down: false,
            tip_up: false,
            buttons: Vec::new(),
        };
        core::mem::swap(&mut pending, &mut self.pending);
        let mut events: Vec<ToolEvent> = Vec::new();
        let mut pressure = PressureChange::Keep;
        if pending.enter {
            events.push(ToolEvent { emission: ToolEmission::Enter, buttons: self.buttons });
        }
        if pending.tip_down {
            self.buttons.insert(self.tip_button);
            if !self.pressure_known {
                pressure = PressureChange::Active;
            }
            events.push(ToolEvent { emission: ToolEmission::Down(Some(self.tip_button)), buttons: self.buttons });
        } else if pending.tip_up {
            self.buttons.remove(self.tip_button);
            pressure = PressureChange::Released;
            self.pressure_known = false;
            events.push(ToolEvent { emission: ToolEmission::Up(Some(self.tip_button)), buttons: self.buttons });
        } else if pending.motion {
            events.push(ToolEvent { emission: ToolEmission::Move, buttons: self.buttons });
        }
        let ghost prefix = events@;
        let ghost b1 = self.buttons;
        let n = pending.buttons.len();
        for k in 0..n
            invariant
                n == pending.buttons@.len(),
                events@ == prefix + button_events(b1, pending.buttons@.take(k as int)),
                self.buttons == buttons_after(b1, pending.buttons@.take(k as int)),
                self.tip_button == old(self).tip_button,
                self.pointer_type == old(self).pointer_type,
                self.proximity_serial == old(self).proximity_serial,
                self.pressure_known == (if pending.tip_down || !pending.tip_up { old(self).pressure_known } else { false }),
                self.pending == (PendingFrame { enter: false, leave: false, motion: false, tip_down: false, tip_up: false, buttons: self.pending.buttons }),
                self.pending.buttons@.len() == 0,
        {
            proof {
                assert(pending.buttons@.take(k as int + 1).drop_last() =~= pending.buttons@.take(k as int));
            }
            let (button, pressed) = pending.buttons[k];
            if let Some(b) = button {
                if pressed {
                    self.buttons.insert(b);
                } else {
                    self.buttons.remove(b);
                }
            }
            if pressed {
                events.push(ToolEvent { emission: ToolEmission::Down(button), buttons: self.buttons });
            } else {
                events.push(ToolEvent { emission: ToolEmission::Up(button), buttons: self.buttons });
            }
            proof {
                assert(events@ =~= prefix + button_events(b1, pending.buttons@.take(k as int + 1)));
            }
        }
        proof {
            assert(pending.buttons@.take(n as int) =~= pending.buttons@);
        }
        if pending.leave {
            events.push(ToolEvent { emission: ToolEmission::Leave, buttons: self.buttons });
            self.in_proximity = false;
            self.proximity_serial = None;
            self.pressure_known = false;
            self.buttons = PointerButtons::new();
        }
        ToolFrame { pressure, events, reset: pending.leave }
    }
}

impl Default for TabletToolTracker {
    /// A pen, out of proximity, with nothing held and nothing pending.
    fn default() -> (t: TabletToolTracker)
        ensures
            t.kind() == PointerType::Pen,
            t.tip() == PointerButton::Primary,
            t.serial() is None,
            !t.pressure_reported(),
            t.held() == PointerButtons::none(),
            t.frame() == (false, false, false, false, false, Seq::<(Option<PointerButton>, bool)>::empty()),
    {
        TabletToolTracker::new()
    }
}


/// What a call on a [`TabletToolTracker`] between two frames does to the tip
/// and pressure bookkeeping.
#[derive(Clone, Copy, Debug, PartialEq, Eq, Structural, Hash)]
pub enum TabletCall {
    /// `proximity_out`.
    ProximityOut,
    /// `tip_down`.
    TipDown,
    /// `tip_up`.
    TipUp,
    /// `pressure_reported_now`.
    Pressure,
    /// Any other call but `flush` (`set_tool`, `proximity_in`, `moved`,
    /// `button`).
    Other,
}

/// The frame's leave, tip-down and tip-up flags and whether a pressure is
/// reported, after `calls`, as the methods' contracts say one call at a time.
pub open spec fn tip_state_after(state: (bool, bool, bool, bool), calls: Seq<TabletCall>) -> (bool, bool, bool, bool)
    decreases calls.len(),
{
    if calls.len() == 0 {
        state
    } else {
        let (leave, down, up, reported) = tip_state_after(state, calls.drop_last());
        match calls.last() {
            TabletCall::ProximityOut => (true, down, up, reported),
            TabletCall::TipDown => (leave, true, up, reported),
            TabletCall::TipUp => (leave, down, true, reported),
            TabletCall::Pressure => (leave, down, up, true),
            TabletCall::Other => (leave, down, up, reported),
        }
    }
}

/// The pressure change `flush` decides for a frame of `calls`, when a
/// pressure was or was not reported before the frame.
pub open spec fn pressure_of_frame(reported: bool, calls: Seq<TabletCall>) -> PressureChange {
    let (_, down, up, rep) = tip_state_after((false, false, false, reported), calls);
    frame_pressure(down, up, rep)
}

/// Whether a pressure counts as reported after `flush` ends a frame of
/// `calls`.
pub open spec fn reported_after_calls(reported: bool, calls: Seq<TabletCall>) -> bool {
    let (leave, down, up, rep) = tip_state_after((false, false, false, reported), calls);
    reported_after_frame(leave, down, up, rep)
}

/// Whether a pressure counts as reported after a sequence of whole frames.
pub open spec fn reported_after_frames(reported: bool, frames: Seq<Seq<TabletCall>>) -> bool
    decreases frames.len(),
{
    if frames.len() == 0 {
        reported
    } else {
        reported_after_calls(reported_after_frames(reported, frames.drop_last()), frames.last())
    }
}

/// A frame that ends the contact's pressure: the tool leaves proximity, or
/// the tip lifts without touching down again in the same frame.
pub open spec fn ends_contact(calls: Seq<TabletCall>) -> bool {
    calls.contains(TabletCall::ProximityOut) || (calls.contains(TabletCall::TipUp) && !calls.contains(TabletCall::TipDown))
}

/// Whether, after `frames`, a pressure stands reported: some frame reported
/// one and neither it nor any later frame ended the contact, or it stood
/// reported at the start and no frame ended the contact.
pub open spec fn pressure_stands(reported: bool, frames: Seq<Seq<TabletCall>>) -> bool {
    ||| exists|i: int|
        0 <= i < frames.len() && #[trigger] frames[i].contains(TabletCall::Pressure) && !ends_contact(frames[i])
            && forall|j: int| i < j < frames.len() ==> !ends_contact(#[trigger] frames[j])
    ||| reported && forall|j: int| 0 <= j < frames.len() ==> !ends_contact(#[trigger] frames[j])
}

/// Within one frame, started from cleared flags, each flag says whether the
/// frame holds that call, and a pressure is reported if it was before or the
/// frame holds a `pressure`.
proof fn lemma_tip_state(reported: bool, calls: Seq<TabletCall>)
    ensures
        tip_state_after((false, false, false, reported), calls) == (
            calls.contains(TabletCall::ProximityOut),
            calls.contains(TabletCall::TipDown),
            calls.contains(TabletCall::TipUp),
            reported || calls.contains(TabletCall::Pressure),
        ),
    decreases calls.len(),
{
    if calls.len() > 0 {
        let p = calls.drop_last();
        lemma_tip_state(reported, p);
        assert(calls[calls.len() - 1] == calls.last());
        assert forall|c: TabletCall| calls.contains(c) == (p.contains(c) || c == calls.last()) by {
            if p.contains(c) {
                let k = choose|k: int| 0 <= k < p.len() && p[k] == c;
                assert(calls[k] == c);
            }
            if calls.contains(c) && c != calls.last() {
                let k = choose|k: int| 0 <= k < calls.len() && calls[k] == c;
                assert(p[k] == c);
            }
        }
    }
}

/// Over any sequence of whole frames, a pressure stands reported exactly when
/// some frame reported one and neither it nor any later frame ended the
/// contact, or one stood reported at the start and no frame ended the
/// contact.
pub proof fn lemma_reported_after_frames(reported: bool, frames: Seq<Seq<TabletCall>>)
    ensures
        reported_after_frames(reported, frames) == pressure_stands(reported, frames),
    decreases frames.len(),
{
    if frames.len() > 0 {
        let n = frames.len() - 1;
        let f = frames.drop_last();
        let last = frames.last();
        lemma_reported_after_frames(reported, f);
        let r = reported_after_frames(reported, f);
        lemma_tip_state(r, last);
        assert(frames[n] == last);
        assert forall|j: int| 0 <= j < n implies frames[j] == f[j] by {}
        if ends_contact(last) {
            assert(!reported_after_frames(reported, frames));
            if pressure_stands(reported, frames) {
                if reported && forall|j: int| 0 <= j < frames.len() ==> !ends_contact(#[trigger] frames[j]) {
                    assert(!ends_contact(frames[n]));
                } else {
                    let i = choose|i: int|
                        0 <= i < frames.len() && #[trigger] frames[i].contains(TabletCall::Pressure) && !ends_contact(frames[i])
                            && forall|j: int| i < j < frames.len() ==> !ends_contact(#[trigger] frames[j]);
                    if i < n {
                        assert(!ends_contact(frames[n]));
                    }
                }
            }
        } else {
            assert(reported_after_frames(reported, frames) == (r || last.contains(TabletCall::Pressure)));
            if last.contains(TabletCall::Pressure) {
                assert(frames[n].contains(TabletCall::Pressure));
                assert(pressure_stands(reported, frames));
            }
            if pressure_stands(reported, f) {
                if reported && forall|j: int| 0 <= j < f.len() ==> !ends_contact(#[trigger] f[j]) {
                    assert forall|j: int| 0 <= j < frames.len() implies !ends_contact(#[trigger] frames[j]) by {
                        if j < n {
                            assert(frames[j] == f[j]);
                        }
                    }
                } else {
                    let i = choose|i: int|
                        0 <= i < f.len() && #[trigger] f[i].contains(TabletCall::Pressure) && !ends_contact(f[i])
                            && forall|j: int| i < j < f.len() ==> !ends_contact(#[trigger] f[j]);
                    assert(frames[i] == f[i]);
                    assert forall|j: int| i < j < frames.len() implies !ends_contact(#[trigger] frames[j]) by {
                        if j < n {
                            assert(frames[j] == f[j]);
                        }
                    }
                }
                assert(pressure_stands(reported, frames));
            }
            if pressure_stands(reported, frames) && !last.contains(TabletCall::Pressure) {
                if reported && forall|j: int| 0 <= j < frames.len() ==> !ends_contact(#[trigger] frames[j]) {
                    assert forall|j: int| 0 <= j < f.len() implies !ends_contact(#[trigger] f[j]) by {
                        assert(frames[j] == f[j]);
                    }
                } else {
                    let i = choose|i: int|
                        0 <= i < frames.len() && #[trigger] frames[i].contains(TabletCall::Pressure) && !ends_contact(frames[i])
                            && forall|j: int| i < j < frames.len() ==> !ends_contact(#[trigger] frames[j]);
                    assert(i != n);
                    assert(f[i] == frames[i]);
                    assert forall|j: int| i < j < f.len() implies !ends_contact(#[trigger] f[j]) by {
                        assert(frames[j] == f[j]);
                    }
                }
                assert(pressure_stands(reported, f));
            }
        }
    }
}

/// The tip pressure of a frame, after any sequence of earlier frames: a tip
/// touching down in a frame that reports no pressure takes the active-unknown
/// pressure exactly when no pressure stands reported from the earlier frames,
/// and the pressure reported in the frame otherwise; one that reports a
/// pressure in its own frame keeps it; a tip lifting without touching down
/// takes the released pressure.
pub proof fn lemma_tip_down_pressure(reported: bool, frames: Seq<Seq<TabletCall>>, calls: Seq<TabletCall>)
    ensures
        calls.contains(TabletCall::TipDown) && !calls.contains(TabletCall::Pressure) ==> pressure_of_frame(
            reported_after_frames(reported, frames),
            calls,
        ) == (if pressure_stands(reported, frames) { PressureChange::Keep } else { PressureChange::Active }),
        calls.contains(TabletCall::TipDown) && calls.contains(TabletCall::Pressure) ==> pressure_of_frame(
            reported_after_frames(reported, frames),
            calls,
        ) == PressureChange::Keep,
        !calls.contains(TabletCall::TipDown) && calls.contains(TabletCall::TipUp) ==> pressure_of_frame(
            reported_after_frames(reported, frames),
            calls,
        ) == PressureChange::Released,
{
    lemma_reported_after_frames(reported, frames);
    lemma_tip_state(reported_after_frames(reported, frames), calls);
}

} // verus!
