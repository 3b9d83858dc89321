//! Reduces `wl_keyboard` event streams into [`KeyboardEvent`]s.
//!
//! The reducer resolves the *physical* key: each key's evdev scancode becomes
//! its [`Code`] through [`mapping::code_from_evdev_scancode`]. The logical key
//! and location need the keymap, so they are [`NamedKey::Unidentified`] and
//! [`Location::Standard`]. The `repeated` key state is a
//! [`KeyState::Down`] with the repeat flag set.
//!
//! Without the keymap the `modifiers` bitmask is opaque, so the reducer
//! ignores it and derives Control, Alt, Shift and Meta from the physical
//! modifier keys it sees held; a modifier stays active while either its left
//! or its right key is held. A focus `enter` seeds the held keys and emits
//! nothing; a `leave` clears them; `repeat_info` is stored for the consumer.

use vstd::prelude::*;

use crate::keyboard::{Code, Key, KeyState, KeyboardEvent, Location, Modifiers, NamedKey};
use crate::wayland::mapping::{self, evdev_code};

verus! {

/// Key-repeat parameters from `wl_keyboard`'s `repeat_info` event.
#[derive(Clone, Copy, Debug, PartialEq, Eq, Structural, Hash)]
pub struct RepeatInfo {
    /// The repeat rate in keys per second; `0` disables key repeat.
    pub rate: i32,
    /// The delay in milliseconds before a held key starts repeating.
    pub delay: i32,
}

/// The key state a `wl_keyboard` `key` event carries.
#[derive(Clone, Copy, Debug, PartialEq, Eq, Structural, Hash)]
pub enum WlKeyState {
    /// The key was pressed.
    Pressed,
    /// The key was released.
    Released,
    /// The key is still pressed and repeating (protocol version 10).
    Repeated,
    /// A state value this protocol version does not know.
    Unknown(u32),
}

/// A `wl_keyboard` event, as the plain values the reducer reads.
#[derive(Clone, Debug, PartialEq, Eq, Hash)]
pub enum KeyboardInput {
    /// A key changed state; `key` is its evdev scancode.
    Key { key: u32, state: WlKeyState },
    /// Keyboard focus entered a surface; `keys` is the wire array of the
    /// scancodes already held, each a little-endian `u32`.
    Enter { keys: Vec<u8> },
    /// Keyboard focus left the surface.
    Leave,
    /// The compositor's key-repeat parameters.
    RepeatInfo { rate: i32, delay: i32 },
    /// The keymap, which this reducer does not use.
    Keymap,
    /// The (keymap-relative, so opaque here) modifier bitmask.
    Modifiers,
    /// Any other event.
    Other,
}

/// The modifier set derived from the scancodes held: Control, Alt, Shift and
/// Meta are active when a left or right key of that kind is held.
pub open spec fn held_modifiers(pressed: Seq<u32>) -> Modifiers {
    Modifiers {
        control: exists|i: int|
            0 <= i < pressed.len() && (evdev_code(#[trigger] pressed[i]) == Code::ControlLeft
                || evdev_code(pressed[i]) == Code::ControlRight),
        alt: exists|i: int|
            0 <= i < pressed.len() && (evdev_code(#[trigger] pressed[i]) == Code::AltLeft
                || evdev_code(pressed[i]) == Code::AltRight),
        shift: exists|i: int|
            0 <= i < pressed.len() && (evdev_code(#[trigger] pressed[i]) == Code::ShiftLeft
                || evdev_code(pressed[i]) == Code::ShiftRight),
        meta: exists|i: int|
            0 <= i < pressed.len() && (evdev_code(#[trigger] pressed[i]) == Code::MetaLeft
                || evdev_code(pressed[i]) == Code::MetaRight),
        caps_lock: false,
        num_lock: false,
        alt_graph: false,
    }
}

/// The little-endian `u32` of four bytes.
pub open spec fn le_u32(b0: u8, b1: u8, b2: u8, b3: u8) -> u32 {
    (b0 + 256 * b1 + 65536 * b2 + 16777216 * b3) as u32
}

/// The scancodes of a focus `enter` key array: each whole group of four
/// bytes read as a little-endian `u32`; trailing bytes are ignored.
pub open spec fn wire_scancodes(keys: Seq<u8>) -> Seq<u32> {
    Seq::new(
        keys.len() / 4,
        |i: int| le_u32(keys[4 * i], keys[4 * i + 1], keys[4 * i + 2], keys[4 * i + 3]),
    )
}

/// `s` with each value kept at its first occurrence only.
pub open spec fn first_occurrences(s: Seq<u32>) -> Seq<u32>
    decreases s.len(),
{
    if s.len() == 0 {
        s
    } else {
        let prefix = first_occurrences(s.drop_last());
        if prefix.contains(s.last()) {
            prefix
        } else {
            prefix.push(s.last())
        }
    }
}

/// `s` with every occurrence of `v` removed.
pub open spec fn without(s: Seq<u32>, v: u32) -> Seq<u32> {
    s.filter(differs_from(v))
}

/// The predicate "differs from `v`".
pub open spec fn differs_from(v: u32) -> spec_fn(u32) -> bool {
    |x: u32| x != v
}

/// The held-key sequence after a key goes down: unchanged if already held,
/// otherwise with the key appended.
pub open spec fn with_key_down(s: Seq<u32>, v: u32) -> Seq<u32> {
    if s.contains(v) {
        s
    } else {
        s.push(v)
    }
}

/// Reduces a `wl_keyboard` event stream into [`KeyboardEvent`]s; keep one per
/// seat keyboard.
#[derive(Clone, Debug, PartialEq, Eq)]
pub struct KeyboardEventReducer {
    /// The evdev scancodes currently held, each once, in the order they went
    /// down.
    pressed: Vec<u32>,
    /// The most recent key-repeat parameters, if any.
    repeat_info: Option<RepeatInfo>,
}

impl KeyboardEventReducer {
    /// The scancodes currently held.
    pub closed spec fn held(self) -> Seq<u32> {
        self.pressed@
    }

    /// The most recently advertised repeat parameters.
    pub closed spec fn repeat(self) -> Option<RepeatInfo> {
        self.repeat_info
    }

    /// The reducer's invariant: no scancode is held twice.
    pub open spec fn wf(self) -> bool {
        self.held().no_duplicates()
    }

    /// A reducer with no key held and no repeat parameters.
    pub fn new() -> (r: KeyboardEventReducer)
        ensures
            r.wf(),
            r.held() == Seq::<u32>::empty(),
            r.repeat() is None,
    {
        KeyboardEventReducer { pressed: Vec::new(), repeat_info: None }
    }

    /// Whether `scancode` is currently held.
    fn is_held(&self, scancode: u32) -> (r: bool)
        ensures
            r == self.held().contains(scancode),
    {
        let n = self.pressed.len();
        for i in 0..n
            invariant
                n == self.pressed@.len(),
                forall|j: int| 0 <= j < i ==> self.pressed@[j] != scancode,
        {
            if self.pressed[i] == scancode {
                return true;
            }
        }
        false
    }

    /// Reduce one `wl_keyboard` event into an optional [`KeyboardEvent`].
    ///
    /// Only `key` events with a known state produce an event; `enter`,
    /// `leave` and `repeat_info` update the state and produce nothing, and
    /// `keymap`, `modifiers` and unknown events change nothing.
    pub fn reduce(&mut self, event: &KeyboardInput) -> (r: Option<KeyboardEvent>)
        requires
            old(self).wf(),
        ensures
            final(self).wf(),
            reduce_step(old(self).held(), old(self).repeat(), final(self).held(), final(self).repeat(), *event, r),
    {
        match event {
            KeyboardInput::Key { key, state } => self.key(*key, *state),
            KeyboardInput::Enter { keys } => {
                self.enter(keys.as_slice());
                None
            },
            KeyboardInput::Leave => {
                self.leave();
                None
            },
            KeyboardInput::RepeatInfo { rate, delay } => {
                self.repeat_info = Some(RepeatInfo { rate: *rate, delay: *delay });
                None
            },
            _ => None,
        }
    }

    /// The most recently advertised key-repeat parameters, if the compositor
    /// has sent a `repeat_info` event.
    pub fn repeat_info(&self) -> (r: Option<RepeatInfo>)
        ensures
            r == self.repeat(),
    {
        self.repeat_info
    }

    /// The current modifier set, derived from the physical modifier keys held.
    pub fn modifiers(&self) -> (m: Modifiers)
        ensures
            m == held_modifiers(self.held()),
    {
        let (mut ctrl, mut alt, mut shift, mut meta) = (false, false, false, false);
        let n = self.pressed.len();
        for i in 0..n
            invariant
                n == self.pressed@.len(),
                modifiers_from_prefix(self.pressed@, i as int) == (Modifiers {
                    control: ctrl,
                    alt,
                    shift,
                    meta,
                    caps_lock: false,
                    num_lock: false,
                    alt_graph: false,
                }),
        {
            proof {
                lemma_held_modifiers_step(self.pressed@, i as int);
            }
            let code = mapping::code_from_evdev_scancode(self.pressed[i]);
            match code {
                Code::ControlLeft | Code::ControlRight => ctrl = true,
                Code::AltLeft | Code::AltRight => alt = true,
                Code::ShiftLeft | Code::ShiftRight => shift = true,
                Code::MetaLeft | Code::MetaRight => meta = true,
                _ => {},
            }
        }
        assert(self.pressed@.take(n as int) =~= self.pressed@);
        mapping::modifiers_from_bools(ctrl, alt, shift, meta)
    }

    /// Handle a `key` event: update the held keys and build the event.
    pub fn key(&mut self, scancode: u32, state: WlKeyState) -> (r: Option<KeyboardEvent>)
        requires
            old(self).wf(),
        ensures
            final(self).wf(),
            key_transition(*old(self), *final(self), scancode, state, r),
    {
        let (key_state, repeat) = match state {
            WlKeyState::Pressed => (KeyState::Down, false),
            WlKeyState::Repeated => (KeyState::Down, true),
            WlKeyState::Released => (KeyState::Up, false),
            WlKeyState::Unknown(_) => {
                return None;
            },
        };
        let ghost before = self.pressed@;
        if key_state == KeyState::Down {
            if !self.is_held(scancode) {
                self.pressed.push(scancode);
            }
        } else {
            self.release(scancode);
        }
        Some(
            KeyboardEvent {
                state: key_state,
                key: Key::Named(NamedKey::Unidentified),
                code: mapping::code_from_evdev_scancode(scancode),
                location: Location::Standard,
                modifiers: self.modifiers(),
                repeat,
                is_composing: false,
            },
        )
    }

    /// Drop `scancode` from the held keys.
    fn release(&mut self, scancode: u32)
        requires
            old(self).wf(),
        ensures
            final(self).wf(),
            final(self).held() == without(old(self).held(), scancode),
            final(self).repeat() == old(self).repeat(),
    {
        let mut kept: Vec<u32> = Vec::new();
        let n = self.pressed.len();
        for i in 0..n
            invariant
                n == self.pressed@.len(),
                kept@ == without(self.pressed@.take(i as int), scancode),
                self.pressed@.no_duplicates(),
        {
            proof {
                let t = self.pressed@.take(i as int + 1);
                assert(t.drop_last() =~= self.pressed@.take(i as int));
                reveal_with_fuel(Seq::filter, 1);
            }
            if self.pressed[i] != scancode {
                kept.push(self.pressed[i]);
            }
        }
        proof {
            assert(self.pressed@.take(n as int) =~= self.pressed@);
            lemma_filter_keeps_distinct(self.pressed@, scancode);
        }
        self.pressed = kept;
    }

    /// Seed the held keys from a focus `enter`'s key array: the little-endian
    /// `u32` scancodes it lists, each once; trailing bytes that do not form a
    /// whole `u32` are ignored.
    pub fn enter(&mut self, keys: &[u8])
        requires
            old(self).wf(),
        ensures
            final(self).wf(),
            final(self).held() == first_occurrences(wire_scancodes(keys@)),
            final(self).repeat() == old(self).repeat(),
    {
        self.pressed.clear();
        let n = keys.len() / 4;
        let ghost codes = wire_scancodes(keys@);
        for i in 0..n
            invariant
                n == keys.len() / 4,
                keys.len() == keys@.len(),
                codes == wire_scancodes(keys@),
                self.pressed@ == first_occurrences(codes.take(i as int)),
                self.pressed@.no_duplicates(),
                self.repeat_info == old(self).repeat_info,
        {
            assert(4 * i + 3 < keys.len()) by (nonlinear_arith)
                requires
                    i < n,
                    n == keys.len() / 4,
            ;
            let b0 = keys[4 * i];
            let b1 = keys[4 * i + 1];
            let b2 = keys[4 * i + 2];
            let b3 = keys[4 * i + 3];
            let scancode: u32 = b0 as u32 + 256 * (b1 as u32) + 65536 * (b2 as u32) + 16777216 * (
            b3 as u32);
            proof {
                assert(codes.take(i as int + 1).drop_last() =~= codes.take(i as int));
                assert(codes[i as int] == scancode);
            }
            if !self.is_held(scancode) {
                self.pressed.push(scancode);
            }
        }
        proof {
            assert(codes.take(n as int) =~= codes);
        }
    }

    /// Handle a `leave` event: clear the held keys.
    pub fn leave(&mut self)
        requires
            old(self).wf(),
        ensures
            final(self).wf(),
            final(self).held() == Seq::<u32>::empty(),
            final(self).repeat() == old(self).repeat(),
    {
        self.pressed.clear();
    }
}

impl Default for KeyboardEventReducer {
    /// A reducer with no key held and no repeat parameters.
    fn default() -> (r: KeyboardEventReducer)
        ensures
            r.wf(),
            r.held() == Seq::<u32>::empty(),
            r.repeat() is None,
    {
        KeyboardEventReducer::new()
    }
}

/// What one `wl_keyboard` event does to the held keys and repeat parameters,
/// and what it emits.
pub open spec fn reduce_step(
    held: Seq<u32>,
    repeat: Option<RepeatInfo>,
    held_after: Seq<u32>,
    repeat_after: Option<RepeatInfo>,
    event: KeyboardInput,
    r: Option<KeyboardEvent>,
) -> bool {
    match event {
        KeyboardInput::Key { key, state } => key_step(held, repeat, held_after, repeat_after, key, state, r),
        KeyboardInput::Enter { keys } => r is None && held_after == first_occurrences(wire_scancodes(keys@))
            && repeat_after == repeat,
        KeyboardInput::Leave => r is None && held_after == Seq::<u32>::empty() && repeat_after == repeat,
        KeyboardInput::RepeatInfo { rate, delay } => r is None && held_after == held && repeat_after == Some(
            RepeatInfo { rate, delay },
        ),
        _ => r is None && held_after == held && repeat_after == repeat,
    }
}

/// What a `key` event does to the held keys and repeat parameters, and what
/// it emits (see [`key_transition`]).
pub open spec fn key_step(
    held: Seq<u32>,
    repeat: Option<RepeatInfo>,
    held_after: Seq<u32>,
    repeat_after: Option<RepeatInfo>,
    scancode: u32,
    state: WlKeyState,
    r: Option<KeyboardEvent>,
) -> bool {
    match state {
        WlKeyState::Unknown(_) => r is None && held_after == held && repeat_after == repeat,
        _ => {
            let down = state != WlKeyState::Released;
            &&& repeat_after == repeat
            &&& held_after == (if down {
                with_key_down(held, scancode)
            } else {
                without(held, scancode)
            })
            &&& r == Some(
                KeyboardEvent {
                    state: if down {
                        KeyState::Down
                    } else {
                        KeyState::Up
                    },
                    key: Key::Named(NamedKey::Unidentified),
                    code: evdev_code(scancode),
                    location: Location::Standard,
                    modifiers: held_modifiers(held_after),
                    repeat: state == WlKeyState::Repeated,
                    is_composing: false,
                },
            )
        },
    }
}

/// What a `key` event does: an unknown state changes nothing and emits
/// nothing; a press or repeat adds the key (once) to the held keys; a release
/// removes it; either way the event carries the evdev code, an unidentified
/// logical key, the standard location and the modifiers after the change.
pub open spec fn key_transition(
    before: KeyboardEventReducer,
    after: KeyboardEventReducer,
    scancode: u32,
    state: WlKeyState,
    r: Option<KeyboardEvent>,
) -> bool {
    match state {
        WlKeyState::Unknown(_) => r is None && after == before,
        _ => {
            let down = state != WlKeyState::Released;
            &&& after.repeat() == before.repeat()
            &&& after.held() == (if down {
                with_key_down(before.held(), scancode)
            } else {
                without(before.held(), scancode)
            })
            &&& r == Some(
                KeyboardEvent {
                    state: if down {
                        KeyState::Down
                    } else {
                        KeyState::Up
                    },
                    key: Key::Named(NamedKey::Unidentified),
                    code: evdev_code(scancode),
                    location: Location::Standard,
                    modifiers: held_modifiers(after.held()),
                    repeat: state == WlKeyState::Repeated,
                    is_composing: false,
                },
            )
        },
    }
}

/// The modifiers held among the first `n` scancodes of `s`.
spec fn modifiers_from_prefix(s: Seq<u32>, n: int) -> Modifiers {
    held_modifiers(s.take(n))
}

/// Extending the held prefix by one scancode adds exactly that key's
/// modifier.
proof fn lemma_held_modifiers_step(s: Seq<u32>, i: int)
    requires
        0 <= i < s.len(),
    ensures
        ({
            let before = held_modifiers(s.take(i));
            let after = held_modifiers(s.take(i + 1));
            let c = evdev_code(s[i]);
            &&& after.control == (before.control || c == Code::ControlLeft || c
                == Code::ControlRight)
            &&& after.alt == (before.alt || c == Code::AltLeft || c == Code::AltRight)
            &&& after.shift == (before.shift || c == Code::ShiftLeft || c == Code::ShiftRight)
            &&& after.meta == (before.meta || c == Code::MetaLeft || c == Code::MetaRight)
            &&& !after.caps_lock && !after.num_lock && !after.alt_graph
        }),
{
    let a = s.take(i);
    let b = s.take(i + 1);
    assert(b[i] == s[i]);
    assert forall|j: int| 0 <= j < i implies #[trigger] a[j] == b[j] by {}
    let hb = held_modifiers(b);
    let ha = held_modifiers(a);
    if ha.control {
        let j = choose|j: int|
            0 <= j < a.len() && (evdev_code(#[trigger] a[j]) == Code::ControlLeft || evdev_code(a[j])
                == Code::ControlRight);
        assert(evdev_code(b[j]) == evdev_code(a[j]));
    }
    if ha.alt {
        let j = choose|j: int|
            0 <= j < a.len() && (evdev_code(#[trigger] a[j]) == Code::AltLeft || evdev_code(a[j])
                == Code::AltRight);
        assert(evdev_code(b[j]) == evdev_code(a[j]));
    }
    if ha.shift {
        let j = choose|j: int|
            0 <= j < a.len() && (evdev_code(#[trigger] a[j]) == Code::ShiftLeft || evdev_code(a[j])
                == Code::ShiftRight);
        assert(evdev_code(b[j]) == evdev_code(a[j]));
    }
    if ha.meta {
        let j = choose|j: int|
            0 <= j < a.len() && (evdev_code(#[trigger] a[j]) == Code::MetaLeft || evdev_code(a[j])
                == Code::MetaRight);
        assert(evdev_code(b[j]) == evdev_code(a[j]));
    }
    if hb.control {
        let j = choose|j: int|
            0 <= j < b.len() && (evdev_code(#[trigger] b[j]) == Code::ControlLeft || evdev_code(b[j])
                == Code::ControlRight);
        if j < i {
            assert(evdev_code(a[j]) == evdev_code(b[j]));
        }
    }
    if hb.alt {
        let j = choose|j: int|
            0 <= j < b.len() && (evdev_code(#[trigger] b[j]) == Code::AltLeft || evdev_code(b[j])
                == Code::AltRight);
        if j < i {
            assert(evdev_code(a[j]) == evdev_code(b[j]));
        }
    }
    if hb.shift {
        let j = choose|j: int|
            0 <= j < b.len() && (evdev_code(#[trigger] b[j]) == Code::ShiftLeft || evdev_code(b[j])
                == Code::ShiftRight);
        if j < i {
            assert(evdev_code(a[j]) == evdev_code(b[j]));
        }
    }
    if hb.meta {
        let j = choose|j: int|
            0 <= j < b.len() && (evdev_code(#[trigger] b[j]) == Code::MetaLeft || evdev_code(b[j])
                == Code::MetaRight);
        if j < i {
            assert(evdev_code(a[j]) == evdev_code(b[j]));
        }
    }
}

/// Removing every occurrence of a value keeps a sequence free of duplicates.
proof fn lemma_filter_keeps_distinct(s: Seq<u32>, v: u32)
    requires
        s.no_duplicates(),
    ensures
        without(s, v).no_duplicates(),
    decreases s.len(),
{
    broadcast use vstd::seq_lib::group_filter_ensures;
    reveal_with_fuel(Seq::filter, 1);
    if s.len() > 0 {
        let p = s.drop_last();
        assert(p.no_duplicates());
        lemma_filter_keeps_distinct(p, v);
        assert(s =~= p.push(s.last()));
        if s.last() != v {
            assert(!without(p, v).contains(s.last())) by {
                if without(p, v).contains(s.last()) {
                    p.lemma_filter_contains_rev(differs_from(v), s.last());
                }
            }
        }
    }
}

/// Pressing a key holds it, exactly once, and keeps every key already held.
pub proof fn lemma_press_holds_key(held: Seq<u32>, key: u32)
    requires
        held.no_duplicates(),
    ensures
        with_key_down(held, key).contains(key),
        with_key_down(held, key).no_duplicates(),
        forall|k: u32| #[trigger] held.contains(k) ==> with_key_down(held, key).contains(k),
{
    if !held.contains(key) {
        let after = held.push(key);
        assert(after[held.len() as int] == key);
        assert forall|k: u32| #[trigger] held.contains(k) implies after.contains(k) by {
            let i = choose|i: int| 0 <= i < held.len() && held[i] == k;
            assert(after[i] == k);
        }
    }
}

/// Releasing a key drops it and keeps every other key held.
pub proof fn lemma_release_drops_key(held: Seq<u32>, key: u32)
    ensures
        !without(held, key).contains(key),
        forall|k: u32| k != key ==> (#[trigger] without(held, key).contains(k) == held.contains(k)),
{
    let w = without(held, key);
    if w.contains(key) {
        let i = choose|i: int| 0 <= i < w.len() && w[i] == key;
        held.lemma_filter_pred(differs_from(key), i);
    }
    assert forall|k: u32| k != key implies (#[trigger] without(held, key).contains(k)
        == held.contains(k)) by {
        if w.contains(k) {
            held.lemma_filter_contains_rev(differs_from(key), k);
        }
        if held.contains(k) {
            let i = choose|i: int| 0 <= i < held.len() && held[i] == k;
            held.lemma_filter_contains(differs_from(key), i);
        }
    }
}

/// Releasing a key that a press added gives back the keys held before the
/// press.
pub proof fn lemma_press_then_release_restores(held: Seq<u32>, key: u32)
    requires
        !held.contains(key),
    ensures
        without(with_key_down(held, key), key) == held,
{
    reveal_with_fuel(Seq::filter, 1);
    assert(held.push(key).drop_last() =~= held);
    assert(without(held, key) =~= held) by {
        lemma_filter_all_differ(held, key);
    }
}

/// Filtering out a value that does not occur changes nothing.
proof fn lemma_filter_all_differ(s: Seq<u32>, v: u32)
    requires
        !s.contains(v),
    ensures
        without(s, v) == s,
    decreases s.len(),
{
    reveal_with_fuel(Seq::filter, 1);
    if s.len() > 0 {
        let p = s.drop_last();
        assert(!p.contains(v)) by {
            if p.contains(v) {
                let i = choose|i: int| 0 <= i < p.len() && p[i] == v;
                assert(s[i] == v);
            }
        }
        lemma_filter_all_differ(p, v);
        assert(s.last() != v) by {
            assert(s[s.len() - 1] == s.last());
        }
        assert(p.push(s.last()) =~= s);
    }
}

/// With no key held, no modifier is active.
pub proof fn lemma_no_keys_no_modifiers()
    ensures
        held_modifiers(Seq::<u32>::empty()) == Modifiers::none(),
{
}

/// A modifier stays active while either of its keys is held: releasing
/// another key keeps the modifier of a key that is still held.
pub proof fn lemma_modifier_stays_while_held(held: Seq<u32>, released: u32, other: u32)
    requires
        held.contains(other),
        other != released,
    ensures
        ({
            let after = held_modifiers(without(held, released));
            let c = evdev_code(other);
            &&& (c == Code::ControlLeft || c == Code::ControlRight) ==> after.control
            &&& (c == Code::AltLeft || c == Code::AltRight) ==> after.alt
            &&& (c == Code::ShiftLeft || c == Code::ShiftRight) ==> after.shift
            &&& (c == Code::MetaLeft || c == Code::MetaRight) ==> after.meta
        }),
{
    lemma_release_drops_key(held, released);
    let w = without(held, released);
    assert(w.contains(other));
    let i = choose|i: int| 0 <= i < w.len() && w[i] == other;
    assert(evdev_code(w[i]) == evdev_code(other));
}

} // verus!
