//! UTF-16 text: well-formedness, decoding, and the little-endian code units
//! of a byte buffer.

use vstd::prelude::*;

verus! {

/// Whether a UTF-16 code unit is a surrogate.
pub open spec fn is_surrogate(u: u16) -> bool {
    0xd800 <= u <= 0xdfff
}

/// Whether a UTF-16 code unit is a leading (high) surrogate.
pub open spec fn is_high_surrogate(u: u16) -> bool {
    0xd800 <= u <= 0xdbff
}

/// Whether a UTF-16 code unit is a trailing (low) surrogate.
pub open spec fn is_low_surrogate(u: u16) -> bool {
    0xdc00 <= u <= 0xdfff
}

/// Whether `units` is well-formed UTF-16: every surrogate is part of a
/// leading-trailing pair.
pub open spec fn utf16_well_formed(units: Seq<u16>) -> bool
    decreases units.len(),
{
    if units.len() == 0 {
        true
    } else if !is_surrogate(units[0]) {
        utf16_well_formed(units.drop_first())
    } else {
        &&& is_high_surrogate(units[0])
        &&& units.len() >= 2
        &&& is_low_surrogate(units[1])
        &&& utf16_well_formed(units.skip(2))
    }
}

/// The scalar value of the first character of non-empty well-formed UTF-16.
pub open spec fn first_utf16_scalar(units: Seq<u16>) -> u32 {
    if !is_surrogate(units[0]) {
        units[0] as u32
    } else {
        (0x10000 + (units[0] - 0xd800) * 0x400 + (units[1] - 0xdc00)) as u32
    }
}

/// The characters that well-formed UTF-16 `units` encode.
pub open spec fn utf16_decode(units: Seq<u16>) -> Seq<char>
    decreases units.len(),
{
    if units.len() == 0 {
        Seq::empty()
    } else if !is_surrogate(units[0]) {
        seq![units[0] as char] + utf16_decode(units.drop_first())
    } else if units.len() >= 2 {
        seq![first_utf16_scalar(units) as char] + utf16_decode(units.skip(2))
    } else {
        Seq::empty()
    }
}

/// The little-endian 16-bit code units of `bytes`, one per whole pair.
pub open spec fn le_units(bytes: Seq<u8>) -> Seq<u16> {
    Seq::new(bytes.len() / 2, |i: int| (bytes[2 * i] + 256 * bytes[2 * i + 1]) as u16)
}

/// `String::from_utf16`: the string that `units` encode, or `None` when
/// they are not well-formed UTF-16 (an unpaired surrogate).
#[verifier::external_body]
pub(crate) fn string_from_utf16(units: &[u16]) -> (r: Option<String>)
    ensures
        r is Some <==> utf16_well_formed(units@),
        r matches Some(s) ==> s@ == utf16_decode(units@),
{
    String::from_utf16(units).ok()
}

/// The string held in `bytes` as little-endian UTF-16: `None` when the
/// length is odd or the code units are not well-formed.
pub fn string_from_le_utf16_bytes(bytes: &[u8]) -> (r: Option<String>)
    ensures
        bytes@.len() % 2 == 1 ==> r is None,
        bytes@.len() % 2 == 0 ==> {
            &&& r is Some <==> utf16_well_formed(le_units(bytes@))
            &&& r matches Some(s) ==> s@ == utf16_decode(le_units(bytes@))
        },
{
    let n = bytes.len();
    if n % 2 == 1 {
        return None;
    }
    let mut units: Vec<u16> = Vec::new();
    let mut i: usize = 0;
    while i < n / 2
        invariant
            n == bytes@.len(),
            i <= n / 2,
            units@ == le_units(bytes@).take(i as int),
        decreases n / 2 - i,
    {
        assert(2 * i + 1 < n) by (nonlinear_arith)
            requires
                i < n / 2,
        ;
        let lo = bytes[2 * i];
        let hi = bytes[2 * i + 1];
        let u: u16 = lo as u16 + 256 * (hi as u16);
        proof {
            assert(le_units(bytes@)[i as int] == u);
            assert(le_units(bytes@).take(i as int + 1) =~= le_units(bytes@).take(i as int).push(u));
        }
        units.push(u);
        i = i + 1;
    }
    proof {
        assert(le_units(bytes@).take((n / 2) as int) =~= le_units(bytes@));
    }
    string_from_utf16(units.as_slice())
}

} // verus!
