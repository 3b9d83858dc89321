//! Pointer values produced by the adapters: buttons, button sets, pointer
//! kinds and pointer identities.

use vstd::prelude::*;

verus! {

/// A pointer button, after the W3C Pointer Events button numbering.
#[derive(Clone, Copy, Debug, PartialEq, Eq, Structural, Hash)]
pub enum PointerButton {
    /// The primary button: left mouse button, pen contact or touch contact.
    Primary,
    /// The secondary button: right mouse button or the pen barrel button.
    Secondary,
    /// The auxiliary button: middle mouse button.
    Auxiliary,
    /// The first extended button, conventionally "back".
    X1,
    /// The second extended button, conventionally "forward".
    X2,
    /// The eraser end of a pen.
    PenEraser,
    /// The seventh button.
    B7,
    /// The eighth button.
    B8,
    /// The ninth button.
    B9,
}

impl PointerButton {
    /// The single bit that stands for this button in a [`PointerButtons`] set.
    pub open spec fn bit(self) -> u32 {
        match self {
            PointerButton::Primary => 1u32,
            PointerButton::Secondary => 2u32,
            PointerButton::Auxiliary => 4u32,
            PointerButton::X1 => 8u32,
            PointerButton::X2 => 16u32,
            PointerButton::PenEraser => 32u32,
            PointerButton::B7 => 64u32,
            PointerButton::B8 => 128u32,
            PointerButton::B9 => 256u32,
        }
    }

    /// The single bit that stands for this button in a [`PointerButtons`] set.
    pub fn to_bit(self) -> (b: u32)
        ensures
            b == self.bit(),
    {
        match self {
            PointerButton::Primary => 1u32,
            PointerButton::Secondary => 2u32,
            PointerButton::Auxiliary => 4u32,
            PointerButton::X1 => 8u32,
            PointerButton::X2 => 16u32,
            PointerButton::PenEraser => 32u32,
            PointerButton::B7 => 64u32,
            PointerButton::B8 => 128u32,
            PointerButton::B9 => 256u32,
        }
    }
}

/// Bits of distinct buttons never overlap.
proof fn lemma_button_bits_disjoint(a: PointerButton, b: PointerButton)
    ensures
        (a.bit() & b.bit() != 0) == (a == b),
        a.bit() != 0,
{
    let x = a.bit();
    let y = b.bit();
    assert(x == 1 || x == 2 || x == 4 || x == 8 || x == 16 || x == 32 || x == 64 || x == 128
        || x == 256);
    assert(y == 1 || y == 2 || y == 4 || y == 8 || y == 16 || y == 32 || y == 64 || y == 128
        || y == 256);
    assert((x & y != 0) == (x == y)) by (bit_vector)
        requires
            x == 1 || x == 2 || x == 4 || x == 8 || x == 16 || x == 32 || x == 64 || x == 128
                || x == 256,
            y == 1 || y == 2 || y == 4 || y == 8 || y == 16 || y == 32 || y == 64 || y == 128
                || y == 256,
    ;
}

/// A set of pointer buttons, stored as one bit per button.
#[derive(Clone, Copy, Debug, PartialEq, Eq, Structural, Hash)]
pub struct PointerButtons {
    bits: u32,
}

impl PointerButtons {
    /// Only the bits of known buttons are ever set.
    #[verifier::type_invariant]
    spec fn known_bits_only(self) -> bool {
        self.bits < 512
    }

    /// Whether `button` is in the set.
    pub closed spec fn has(self, button: PointerButton) -> bool {
        self.bits & button.bit() != 0
    }

    /// The set with `button` added.
    pub closed spec fn inserted(self, button: PointerButton) -> PointerButtons {
        PointerButtons { bits: self.bits | button.bit() }
    }

    /// The set with `button` removed.
    pub closed spec fn removed(self, button: PointerButton) -> PointerButtons {
        PointerButtons { bits: self.bits & !button.bit() }
    }

    /// The empty set.
    pub closed spec fn none() -> PointerButtons {
        PointerButtons { bits: 0 }
    }

    /// Whether the set is empty.
    pub open spec fn is_none(self) -> bool {
        forall|b: PointerButton| !#[trigger] self.has(b)
    }

    /// The bits of the set, one per button as `ui-events` numbers them.
    pub closed spec fn spec_bits(self) -> u32 {
        self.bits
    }

    /// The empty set.
    pub fn new() -> (s: PointerButtons)
        ensures
            s.is_none(),
            s == PointerButtons::none(),
    {
        let s = PointerButtons { bits: 0 };
        assert forall|b: PointerButton| !#[trigger] s.has(b) by {
            let x = b.bit();
            assert(0u32 & x == 0) by (bit_vector);
        }
        s
    }

    /// Add `button` to the set.
    pub fn insert(&mut self, button: PointerButton)
        ensures
            forall|b: PointerButton| #[trigger] final(self).has(b) == (old(self).has(b) || b == button),
            *final(self) == old(self).inserted(button),
    {
        proof {
            use_type_invariant(&*self);
        }
        let x = self.bits;
        let m = button.to_bit();
        assert(x | m < 512) by (bit_vector)
            requires
                x < 512,
                m == 1 || m == 2 || m == 4 || m == 8 || m == 16 || m == 32 || m == 64 || m == 128
                    || m == 256,
        ;
        self.bits = x | m;
        assert forall|b: PointerButton| #[trigger] self.has(b) == (old(self).has(b) || b == button) by {
            let c = b.bit();
            assert(((x | m) & c != 0) == ((x & c != 0) || (m & c != 0))) by (bit_vector);
            lemma_button_bits_disjoint(button, b);
        }
    }

    /// Remove `button` from the set.
    pub fn remove(&mut self, button: PointerButton)
        ensures
            forall|b: PointerButton| #[trigger] final(self).has(b) == (old(self).has(b) && b != button),
            *final(self) == old(self).removed(button),
    {
        proof {
            use_type_invariant(&*self);
        }
        let x = self.bits;
        let m = button.to_bit();
        assert(x & !m <= x) by (bit_vector);
        self.bits = x & !m;
        assert forall|b: PointerButton| #[trigger] self.has(b) == (old(self).has(b) && b != button) by {
            let c = b.bit();
            lemma_button_bits_disjoint(button, b);
            assert(((x & !m) & c != 0) == ((x & c != 0) && (m & c == 0))) by (bit_vector)
                requires
                    c == 1 || c == 2 || c == 4 || c == 8 || c == 16 || c == 32 || c == 64 || c
                        == 128 || c == 256,
            ;
        }
    }

    /// Whether `button` is in the set.
    pub fn contains(&self, button: PointerButton) -> (r: bool)
        ensures
            r == self.has(button),
    {
        self.bits & button.to_bit() != 0
    }

    /// Whether the set is empty.
    pub fn is_empty(&self) -> (r: bool)
        ensures
            r == self.is_none(),
    {
        proof {
            use_type_invariant(self);
        }
        if self.bits == 0 {
            assert forall|b: PointerButton| !#[trigger] self.has(b) by {
                let x = b.bit();
                assert(0u32 & x == 0) by (bit_vector);
            }
            true
        } else {
            let x = self.bits;
            assert(x & 1 != 0 || x & 2 != 0 || x & 4 != 0 || x & 8 != 0 || x & 16 != 0 || x & 32
                != 0 || x & 64 != 0 || x & 128 != 0 || x & 256 != 0) by (bit_vector)
                requires
                    x != 0,
                    x < 512,
            ;
            assert(self.has(PointerButton::Primary) || self.has(PointerButton::Secondary)
                || self.has(PointerButton::Auxiliary) || self.has(PointerButton::X1) || self.has(
                PointerButton::X2) || self.has(PointerButton::PenEraser) || self.has(
                PointerButton::B7) || self.has(PointerButton::B8) || self.has(PointerButton::B9));
            false
        }
    }

    /// The bits of the set, one per button as `ui-events` numbers them.
    pub fn bits(&self) -> (r: u32)
        ensures
            r == self.spec_bits(),
    {
        self.bits
    }
}

/// Pressing a button that was not held and releasing it again gives back the
/// set held before.
pub proof fn lemma_press_release_restores(held: PointerButtons, button: PointerButton)
    requires
        !held.has(button),
    ensures
        held.inserted(button).removed(button) == held,
{
    let x = held.bits;
    let m = button.bit();
    assert((x & m == 0) ==> ((x | m) & !m == x)) by (bit_vector);
}

/// Releasing a button and pressing it again leaves it held, whatever the
/// set was.
pub proof fn lemma_release_press_holds(held: PointerButtons, button: PointerButton)
    ensures
        held.removed(button).inserted(button) == held.inserted(button),
{
    let x = held.bits;
    let m = button.bit();
    assert((x & !m) | m == x | m) by (bit_vector);
}

/// The kind of device behind a pointer.
#[derive(Clone, Copy, Debug, PartialEq, Eq, Structural, Hash)]
pub enum PointerType {
    /// The kind is not known.
    Unknown,
    /// A mouse, touchpad or other cursor-driving device.
    Mouse,
    /// A pen or stylus.
    Pen,
    /// A finger on a touch surface.
    Touch,
}

/// A pointer identity; never zero, and `1` is reserved for the primary pointer.
#[derive(Clone, Copy, Debug, PartialEq, Eq, Structural, Hash)]
pub struct PointerId {
    id: u64,
}

impl PointerId {
    /// Identifiers are never zero.
    #[verifier::type_invariant]
    spec fn nonzero(self) -> bool {
        self.id != 0
    }

    /// The numeric value of the identifier.
    pub closed spec fn value(self) -> u64 {
        self.id
    }

    /// The identifier with value `v` (meaningful for non-zero `v`).
    pub closed spec fn with_value(v: u64) -> PointerId {
        PointerId { id: v }
    }

    /// The identifier with value `v` has value `v`.
    pub proof fn lemma_value_of(v: u64)
        ensures
            PointerId::with_value(v).value() == v,
    {
    }

    /// The identifier of the primary pointer, whose value is `1`.
    pub open spec fn is_primary(self) -> bool {
        self.value() == 1
    }

    /// Build an identifier from `n`; `None` exactly when `n` is zero.
    pub fn new(n: u64) -> (r: Option<PointerId>)
        ensures
            r is None <==> n == 0,
            r matches Some(p) ==> p.value() == n && p == PointerId::with_value(n),
    {
        if n == 0 {
            None
        } else {
            Some(PointerId { id: n })
        }
    }

    /// The identifier reserved for the primary pointer.
    pub fn primary() -> (p: PointerId)
        ensures
            p.value() == 1,
            p == PointerId::with_value(1),
    {
        PointerId { id: 1 }
    }

    /// The numeric value of the identifier, which is never zero.
    pub fn get(&self) -> (r: u64)
        ensures
            r == self.value(),
            r != 0,
    {
        proof {
            use_type_invariant(self);
        }
        self.id
    }

    /// Whether this is the primary pointer's identifier.
    pub fn is_primary_pointer(&self) -> (r: bool)
        ensures
            r == self.is_primary(),
    {
        self.id == 1
    }
}

/// Who produced a pointer event.
#[derive(Clone, Copy, Debug, PartialEq, Eq, Structural, Hash)]
pub struct PointerInfo {
    /// The pointer's identity, if it has one.
    pub pointer_id: Option<PointerId>,
    /// The kind of device.
    pub pointer_type: PointerType,
}

impl PointerInfo {
    /// Whether this describes the primary pointer.
    pub open spec fn is_primary(self) -> bool {
        self.pointer_id matches Some(p) && p.is_primary()
    }

    /// Whether this describes the primary pointer.
    pub fn is_primary_pointer(&self) -> (r: bool)
        ensures
            r == self.is_primary(),
    {
        match &self.pointer_id {
            Some(p) => p.is_primary_pointer(),
            None => false,
        }
    }
}

} // verus!
