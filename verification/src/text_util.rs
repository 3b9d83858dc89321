//! Small string conversions from the standard library whose behaviour the
//! conversions rely on.

use vstd::prelude::*;

verus! {

/// `<char as ToString>::to_string`: the string holding just `c`.
#[verifier::external_body]
pub(crate) fn string_from_char(c: char) -> (s: String)
    ensures
        s@ == seq![c],
{
    c.to_string()
}

/// `char::from_u32`: the character with scalar value `v`, or `None` when
/// `v` is not a Unicode scalar value (a surrogate or above `0x10FFFF`).
#[verifier::external_body]
pub(crate) fn char_from_u32(v: u32) -> (r: Option<char>)
    ensures
        r is Some <==> vstd::utf8::is_scalar(v),
        r matches Some(c) ==> c as u32 == v,
{
    char::from_u32(v)
}

} // verus!
