//! The decisions behind `WM_IME_COMPOSITION`: which composition string
//! changed, where the targeted clause (or else the caret) lies in the
//! composing text, and the text-input events the message becomes.
//!
//! The caller reads the composition strings, their attribute bytes and the
//! caret position from the window's input context and hands them over as
//! plain values.

use vstd::prelude::*;

use crate::text::{
    composition_event, insert_event, is_plain_composition, is_plain_insert, is_single,
    selection_fits, selection_fits_text, TextInputEvent, TextRange,
};
use vstd::string::StringSliceAdditionalSpecFns;
use vstd::string::StrSliceExecFns;
use vstd::utf8::encode_utf8;

verus! {

/// `GCS_COMPSTR`: the composing string changed.
pub const GCS_COMPSTR: u32 = 8;
/// `GCS_RESULTSTR`: a string was committed.
pub const GCS_RESULTSTR: u32 = 2048;
/// `ATTR_TARGET_CONVERTED`: a converted character of the targeted clause.
pub const ATTR_TARGET_CONVERTED: u8 = 1;
/// `ATTR_TARGET_NOTCONVERTED`: an unconverted character of the targeted
/// clause.
pub const ATTR_TARGET_NOTCONVERTED: u8 = 3;

/// The number of UTF-16 code units that encode `c`.
pub open spec fn utf16_width(c: char) -> nat {
    if (c as u32) < 0x10000 {
        1
    } else {
        2
    }
}

/// The number of UTF-16 code units that encode `s`.
pub open spec fn utf16_len(s: Seq<char>) -> nat
    decreases s.len(),
{
    if s.len() == 0 {
        0
    } else {
        utf16_len(s.drop_last()) + utf16_width(s.last())
    }
}

/// The number of UTF-8 bytes that encode `c`.
pub open spec fn utf8_width(c: char) -> nat {
    if (c as u32) < 0x80 {
        1
    } else if (c as u32) < 0x800 {
        2
    } else if (c as u32) < 0x10000 {
        3
    } else {
        4
    }
}

/// The byte offset, in the UTF-8 encoding of `text`, of its character `i`.
pub open spec fn byte_offset(text: Seq<char>, i: int) -> nat {
    encode_utf8(text.take(i)).len()
}

/// Whether an attribute byte marks a character of the targeted clause.
pub open spec fn is_target_attr(a: u8) -> bool {
    a == ATTR_TARGET_CONVERTED || a == ATTR_TARGET_NOTCONVERTED
}

/// Whether character `i` of `text` has an attribute: the attribute bytes
/// are indexed by UTF-16 offset.
pub open spec fn has_attr(text: Seq<char>, attrs: Seq<u8>, i: int) -> bool {
    0 <= i < text.len() && utf16_len(text.take(i)) < attrs.len()
}

/// Whether character `i` of `text` belongs to the targeted clause.
pub open spec fn is_targeted(text: Seq<char>, attrs: Seq<u8>, i: int) -> bool {
    has_attr(text, attrs, i) && is_target_attr(attrs[utf16_len(text.take(i)) as int])
}

/// The byte range of the targeted clause: it starts at the first targeted
/// character `i` and ends before the first character after it that has an
/// attribute and is not targeted, or at the end of the text when there is
/// none. `None` when no character is targeted.
pub open spec fn targeted_clause_of(text: Seq<char>, attrs: Seq<u8>, r: Option<(usize, usize)>) -> bool {
    match r {
        None => forall|i: int| !is_targeted(text, attrs, i),
        Some((start, end)) => exists|i: int|
            {
                &&& #[trigger] is_targeted(text, attrs, i)
                &&& forall|k: int| 0 <= k < i ==> !is_targeted(text, attrs, k)
                &&& start == byte_offset(text, i)
                &&& clause_end(text, attrs, i, end)
            },
    }
}

/// Where a clause that starts at character `i` ends (see
/// [`targeted_clause_of`]).
pub open spec fn clause_end(text: Seq<char>, attrs: Seq<u8>, i: int, end: usize) -> bool {
    ||| exists|j: int|
        {
            &&& i < j
            &&& #[trigger] has_attr(text, attrs, j)
            &&& !is_targeted(text, attrs, j)
            &&& forall|k: int| i < k < j ==> is_targeted(text, attrs, k)
            &&& end == byte_offset(text, j)
        }
    ||| {
        &&& forall|j: int| i < j && has_attr(text, attrs, j) ==> is_targeted(text, attrs, j)
        &&& end == encode_utf8(text).len()
    }
}

proof fn lemma_encode_append(a: Seq<char>, b: Seq<char>)
    ensures
        encode_utf8(a + b) == encode_utf8(a) + encode_utf8(b),
    decreases a.len(),
{
    if a.len() == 0 {
        assert(a + b =~= b);
        assert(encode_utf8(a) + encode_utf8(b) =~= encode_utf8(b));
    } else {
        assert((a + b).drop_first() =~= a.drop_first() + b);
        lemma_encode_append(a.drop_first(), b);
        assert(encode_utf8(a + b) =~= encode_utf8(a) + encode_utf8(b));
    }
}

proof fn lemma_encode_push(s: Seq<char>, c: char)
    ensures
        encode_utf8(s.push(c)).len() == encode_utf8(s).len() + utf8_width(c),
{
    lemma_encode_append(s, seq![c]);
    assert(s.push(c) =~= s + seq![c]);
    assert(seq![c].drop_first() =~= Seq::<char>::empty());
    assert(encode_utf8(Seq::<char>::empty()) =~= Seq::<u8>::empty());
    vstd::utf8::char_is_scalar(c);
    assert(encode_utf8(seq![c]) =~= vstd::utf8::encode_scalar(c as u32));
}

proof fn lemma_take_step(s: Seq<char>, i: int)
    requires
        0 <= i < s.len(),
    ensures
        s.take(i + 1) == s.take(i).push(s[i]),
        s.take(i + 1).drop_last() == s.take(i),
        s.take(i + 1).last() == s[i],
{
    assert(s.take(i + 1) =~= s.take(i).push(s[i]));
    assert(s.take(i + 1).drop_last() =~= s.take(i));
}

proof fn lemma_utf16_le_utf8(s: Seq<char>)
    ensures
        utf16_len(s) <= encode_utf8(s).len(),
    decreases s.len(),
{
    if s.len() > 0 {
        lemma_utf16_le_utf8(s.drop_last());
        assert(s.drop_last().push(s.last()) =~= s);
        lemma_encode_push(s.drop_last(), s.last());
    }
}

proof fn lemma_utf16_monotone(s: Seq<char>, i: int, j: int)
    requires
        0 <= i <= j <= s.len(),
    ensures
        utf16_len(s.take(i)) <= utf16_len(s.take(j)),
    decreases j - i,
{
    if i < j {
        lemma_take_step(s, j - 1);
        lemma_utf16_monotone(s, i, j - 1);
    }
}

proof fn lemma_prefix_bytes(s: Seq<char>, i: int)
    requires
        0 <= i <= s.len(),
    ensures
        byte_offset(s, i) <= encode_utf8(s).len(),
{
    assert(s.take(i) + s.skip(i) =~= s);
    lemma_encode_append(s.take(i), s.skip(i));
}

/// The number of UTF-8 bytes that encode `c`.
fn char_utf8_width(c: char) -> (n: usize)
    ensures
        n == utf8_width(c),
{
    let v = c as u32;
    if v < 0x80 {
        1
    } else if v < 0x800 {
        2
    } else if v < 0x10000 {
        3
    } else {
        4
    }
}

/// The number of UTF-16 code units that encode `c`.
fn char_utf16_width(c: char) -> (n: usize)
    ensures
        n == utf16_width(c),
{
    if (c as u32) < 0x10000 {
        1
    } else {
        2
    }
}

/// The byte range of the targeted clause of a composing string, from its
/// attribute bytes (one per UTF-16 code unit); see [`targeted_clause_of`].
/// The scan stops at the first character without an attribute.
pub fn targeted_clause(text: &str, attrs: &[u8]) -> (r: Option<(usize, usize)>)
    ensures
        targeted_clause_of(text@, attrs@, r),
{
    let ghost s = text@;
    let ghost a = attrs@;
    let total = text.as_bytes().len();
    let n = text.unicode_len();
    let mut first: Option<usize> = None;
    let mut last: Option<usize> = None;
    let ghost mut fi: int = 0;
    let ghost mut li: int = 0;
    let mut boundary: usize = 0;
    let mut attr_idx: usize = 0;
    let mut i: usize = 0;
    proof {
        assert(s.take(0) =~= Seq::<char>::empty());
        assert(encode_utf8(Seq::<char>::empty()) =~= Seq::<u8>::empty());
    }
    while i < n && attr_idx < attrs.len()
        invariant
            text@ == s,
            attrs@ == a,
            n == s.len(),
            total == encode_utf8(s).len(),
            0 <= i <= n,
            boundary == byte_offset(s, i as int),
            attr_idx == utf16_len(s.take(i as int)),
            forall|k: int| 0 <= k < i ==> has_attr(s, a, k),
            first is None ==> last is None && forall|k: int| 0 <= k < i ==> !is_targeted(s, a, k),
            first is Some ==> {
                &&& 0 <= fi < i
                &&& is_targeted(s, a, fi)
                &&& forall|k: int| 0 <= k < fi ==> !is_targeted(s, a, k)
                &&& first matches Some(x) && x == byte_offset(s, fi)
            },
            last is Some ==> {
                &&& fi < li < i
                &&& has_attr(s, a, li)
                &&& !is_targeted(s, a, li)
                &&& forall|k: int| fi < k < li ==> is_targeted(s, a, k)
                &&& last matches Some(x) && x == byte_offset(s, li)
            },
            first is Some && last is None ==> forall|k: int| fi < k < i ==> is_targeted(s, a, k),
        decreases n - i,
    {
        let c = text.get_char(i);
        let targeted = attrs[attr_idx] == ATTR_TARGET_CONVERTED || attrs[attr_idx]
            == ATTR_TARGET_NOTCONVERTED;
        proof {
            assert(has_attr(s, a, i as int));
            lemma_take_step(s, i as int);
            lemma_encode_push(s.take(i as int), c);
            lemma_prefix_bytes(s, i as int + 1);
            lemma_utf16_le_utf8(s.take(i as int + 1));
        }
        if first.is_none() && targeted {
            first = Some(boundary);
            proof {
                fi = i as int;
            }
        } else if first.is_some() && last.is_none() && !targeted {
            last = Some(boundary);
            proof {
                li = i as int;
            }
        }
        boundary = boundary + char_utf8_width(c);
        attr_idx = attr_idx + char_utf16_width(c);
        i = i + 1;
    }
    proof {
        assert forall|k: int| i <= k implies !has_attr(s, a, k) by {
            if i <= k < n {
                lemma_utf16_monotone(s, i as int, k);
            }
        }
    }
    match first {
        None => {
            proof {
                assert forall|k: int| !is_targeted(s, a, k) by {
                    if 0 <= k < i {
                    } else if i <= k {
                        assert(!has_attr(s, a, k));
                    }
                }
                assert(targeted_clause_of(text@, attrs@, None));
            }
            None
        },
        Some(start) => {
            match last {
                Some(end) => {
                    proof {
                        assert(is_targeted(s, a, fi));
                        assert(has_attr(s, a, li));
                        assert(clause_end(s, a, fi, end));
                    }
                    Some((start, end))
                },
                None => {
                    proof {
                        assert(is_targeted(s, a, fi));
                        assert forall|j: int| fi < j && has_attr(s, a, j) implies is_targeted(
                            s,
                            a,
                            j,
                        ) by {
                            if j >= i {
                                assert(!has_attr(s, a, j));
                            }
                        }
                        assert(clause_end(s, a, fi, total));
                    }
                    Some((start, total))
                },
            }
        },
    }
}

/// The caret's character index, clamped to the text.
pub open spec fn clamped_cursor(text: Seq<char>, cursor: i32) -> int {
    if cursor > text.len() {
        text.len() as int
    } else {
        cursor as int
    }
}

/// The byte offset of the composition caret, which the input context
/// reports as a character count: `None` when it reports a negative count;
/// a count past the end of the text stands for its end.
pub fn cursor_byte_offset(text: &str, cursor: i32) -> (r: Option<usize>)
    ensures
        cursor < 0 ==> r is None,
        cursor >= 0 ==> (r matches Some(o) && o == byte_offset(text@, clamped_cursor(text@, cursor))),
{
    if cursor < 0 {
        return None;
    }
    let ghost s = text@;
    let total = text.as_bytes().len();
    let n = text.unicode_len();
    let stop: usize = if (cursor as u64) < (n as u64) {
        cursor as usize
    } else {
        n
    };
    let mut offset: usize = 0;
    let mut i: usize = 0;
    proof {
        assert(s.take(0) =~= Seq::<char>::empty());
        assert(encode_utf8(Seq::<char>::empty()) =~= Seq::<u8>::empty());
    }
    while i < stop
        invariant
            text@ == s,
            n == s.len(),
            total == encode_utf8(s).len(),
            stop <= n,
            stop == clamped_cursor(s, cursor),
            0 <= i <= stop,
            offset == byte_offset(s, i as int),
        decreases stop - i,
    {
        let c = text.get_char(i);
        proof {
            lemma_take_step(s, i as int);
            lemma_encode_push(s.take(i as int), c);
            lemma_prefix_bytes(s, i as int + 1);
        }
        offset = offset + char_utf8_width(c);
        i = i + 1;
    }
    Some(offset)
}

/// The selection of a composing string: its targeted clause when a
/// character is targeted, else the caret (an empty range at it), else none.
pub open spec fn composing_selection_of(
    text: Seq<char>,
    attrs: Seq<u8>,
    cursor: i32,
    r: Option<(usize, usize)>,
) -> bool {
    if exists|i: int| is_targeted(text, attrs, i) {
        targeted_clause_of(text, attrs, r)
    } else if cursor < 0 {
        r is None
    } else {
        r matches Some((x, y)) && x == y && x == byte_offset(text, clamped_cursor(text, cursor))
    }
}

/// The selection of a composing string (see [`composing_selection_of`]).
pub fn composing_selection(text: &str, attrs: &[u8], cursor: i32) -> (r: Option<(usize, usize)>)
    ensures
        composing_selection_of(text@, attrs@, cursor, r),
{
    match targeted_clause(text, attrs) {
        Some(clause) => Some(clause),
        None => match cursor_byte_offset(text, cursor) {
            Some(o) => Some((o, o)),
            None => None,
        },
    }
}

/// What a `WM_IME_COMPOSITION` message reports, from its `lParam` flags.
#[derive(Clone, Copy, Debug, PartialEq, Eq, Structural, Hash)]
pub enum ImeChange {
    /// A string was committed (`GCS_RESULTSTR`).
    Result,
    /// The composing string changed (`GCS_COMPSTR`, without a result).
    Composing,
    /// Neither.
    Nothing,
}

/// What a `WM_IME_COMPOSITION` message with `lParam` `lparam` reports: the
/// committed result takes precedence over the composing string. Only the
/// low 32 bits of `lParam` carry flags.
pub fn ime_change(lparam: isize) -> (c: ImeChange)
    ensures
        c == (if (lparam as u32) & GCS_RESULTSTR != 0 {
            ImeChange::Result
        } else if (lparam as u32) & GCS_COMPSTR != 0 {
            ImeChange::Composing
        } else {
            ImeChange::Nothing
        }),
{
    let flags = lparam as u32;
    if flags & GCS_RESULTSTR != 0 {
        ImeChange::Result
    } else if flags & GCS_COMPSTR != 0 {
        ImeChange::Composing
    } else {
        ImeChange::Nothing
    }
}

/// The events of a committed IME result string: an insertion of it, and
/// nothing when it is empty.
pub fn ime_result_events(text: String) -> (r: Option<Vec<TextInputEvent>>)
    ensures
        text@.len() == 0 ==> r is None,
        text@.len() > 0 ==> is_single(r, |e: TextInputEvent| is_plain_insert(e, text@)),
{
    if text.as_str().is_empty() {
        None
    } else {
        Some(vec![insert_event(text)])
    }
}

/// The events of a composing string with selection `sel`: a composition
/// snapshot carrying the selection; nothing when an offset does not fit in a
/// `u32` or the selection does not fit the text.
pub open spec fn composing_events_for(
    text: Seq<char>,
    sel: Option<(usize, usize)>,
    r: Option<Vec<TextInputEvent>>,
) -> bool {
    match sel {
        None => is_single(r, |e: TextInputEvent| is_plain_composition(e, text, None)),
        Some((start, end)) => if start > u32::MAX || end > u32::MAX {
            r is None
        } else {
            let range = TextRange { start: start as u32, end: end as u32 };
            if selection_fits(text, range) {
                is_single(r, |e: TextInputEvent| is_plain_composition(e, text, Some(range)))
            } else {
                r is None
            }
        },
    }
}

/// The events of a changed composing string, from the string, its attribute
/// bytes and the caret the input context reports: an empty string ends the
/// composition; otherwise a composition snapshot with the selection of
/// [`composing_selection_of`] (see [`composing_events_for`]).
pub fn ime_composing_events(text: String, attrs: &[u8], cursor: i32) -> (r: Option<
    Vec<TextInputEvent>,
>)
    ensures
        text@.len() == 0 ==> is_single(r, |e: TextInputEvent| e == TextInputEvent::CompositionEnd),
        text@.len() > 0 ==> exists|sel: Option<(usize, usize)>|
            composing_selection_of(text@, attrs@, cursor, sel) && composing_events_for(
                text@,
                sel,
                r,
            ),
{
    if text.as_str().is_empty() {
        return Some(vec![TextInputEvent::CompositionEnd]);
    }
    let sel = composing_selection(text.as_str(), attrs, cursor);
    let r = match sel {
        None => Some(vec![composition_event(text, None)]),
        Some((start, end)) => {
            if start > 0xffff_ffffusize || end > 0xffff_ffffusize {
                None
            } else {
                let range = TextRange { start: start as u32, end: end as u32 };
                if selection_fits_text(text.as_str(), range) {
                    Some(vec![composition_event(text, Some(range))])
                } else {
                    None
                }
            }
        },
    };
    proof {
        assert(composing_events_for(text@, sel, r));
    }
    r
}

/// The selection of a composing string is determined by the string, its
/// attribute bytes and the caret: two selections that both meet
/// [`composing_selection_of`] are equal.
pub proof fn lemma_composing_selection_is_determined(
    text: Seq<char>,
    attrs: Seq<u8>,
    cursor: i32,
    r1: Option<(usize, usize)>,
    r2: Option<(usize, usize)>,
)
    requires
        composing_selection_of(text, attrs, cursor, r1),
        composing_selection_of(text, attrs, cursor, r2),
    ensures
        r1 == r2,
{
    if exists|i: int| is_targeted(text, attrs, i) {
        lemma_targeted_clause_is_determined(text, attrs, r1, r2);
    }
}

proof fn lemma_targeted_clause_is_determined(
    text: Seq<char>,
    attrs: Seq<u8>,
    r1: Option<(usize, usize)>,
    r2: Option<(usize, usize)>,
)
    requires
        targeted_clause_of(text, attrs, r1),
        targeted_clause_of(text, attrs, r2),
    ensures
        r1 == r2,
{
    match (r1, r2) {
        (Some((s1, e1)), Some((s2, e2))) => {
            let i1 = choose|i: int|
                {
                    &&& #[trigger] is_targeted(text, attrs, i)
                    &&& forall|k: int| 0 <= k < i ==> !is_targeted(text, attrs, k)
                    &&& s1 == byte_offset(text, i)
                    &&& clause_end(text, attrs, i, e1)
                };
            let i2 = choose|i: int|
                {
                    &&& #[trigger] is_targeted(text, attrs, i)
                    &&& forall|k: int| 0 <= k < i ==> !is_targeted(text, attrs, k)
                    &&& s2 == byte_offset(text, i)
                    &&& clause_end(text, attrs, i, e2)
                };
            assert(i1 == i2) by {
                if i1 < i2 {
                    assert(0 <= i1);
                } else if i2 < i1 {
                    assert(0 <= i2);
                }
            }
            lemma_clause_end_is_determined(text, attrs, i1, e1, e2);
        },
        (Some((s1, e1)), None) => {
            let i1 = choose|i: int|
                {
                    &&& #[trigger] is_targeted(text, attrs, i)
                    &&& forall|k: int| 0 <= k < i ==> !is_targeted(text, attrs, k)
                    &&& s1 == byte_offset(text, i)
                    &&& clause_end(text, attrs, i, e1)
                };
            assert(!is_targeted(text, attrs, i1));
        },
        (None, Some((s2, e2))) => {
            let i2 = choose|i: int|
                {
                    &&& #[trigger] is_targeted(text, attrs, i)
                    &&& forall|k: int| 0 <= k < i ==> !is_targeted(text, attrs, k)
                    &&& s2 == byte_offset(text, i)
                    &&& clause_end(text, attrs, i, e2)
                };
            assert(!is_targeted(text, attrs, i2));
        },
        (None, None) => {},
    }
}

proof fn lemma_clause_end_is_determined(text: Seq<char>, attrs: Seq<u8>, i: int, e1: usize, e2: usize)
    requires
        clause_end(text, attrs, i, e1),
        clause_end(text, attrs, i, e2),
    ensures
        e1 == e2,
{
    let first = exists|j: int|
        {
            &&& i < j
            &&& #[trigger] has_attr(text, attrs, j)
            &&& !is_targeted(text, attrs, j)
            &&& forall|k: int| i < k < j ==> is_targeted(text, attrs, k)
            &&& e1 == byte_offset(text, j)
        };
    let second = exists|j: int|
        {
            &&& i < j
            &&& #[trigger] has_attr(text, attrs, j)
            &&& !is_targeted(text, attrs, j)
            &&& forall|k: int| i < k < j ==> is_targeted(text, attrs, k)
            &&& e2 == byte_offset(text, j)
        };
    if first && second {
        let j1 = choose|j: int|
            {
                &&& i < j
                &&& #[trigger] has_attr(text, attrs, j)
                &&& !is_targeted(text, attrs, j)
                &&& forall|k: int| i < k < j ==> is_targeted(text, attrs, k)
                &&& e1 == byte_offset(text, j)
            };
        let j2 = choose|j: int|
            {
                &&& i < j
                &&& #[trigger] has_attr(text, attrs, j)
                &&& !is_targeted(text, attrs, j)
                &&& forall|k: int| i < k < j ==> is_targeted(text, attrs, k)
                &&& e2 == byte_offset(text, j)
            };
        if j1 < j2 {
            assert(is_targeted(text, attrs, j1));
        } else if j2 < j1 {
            assert(is_targeted(text, attrs, j2));
        }
    } else if first {
        let j1 = choose|j: int|
            {
                &&& i < j
                &&& #[trigger] has_attr(text, attrs, j)
                &&& !is_targeted(text, attrs, j)
                &&& forall|k: int| i < k < j ==> is_targeted(text, attrs, k)
                &&& e1 == byte_offset(text, j)
            };
        assert(has_attr(text, attrs, j1) ==> is_targeted(text, attrs, j1));
    } else if second {
        let j2 = choose|j: int|
            {
                &&& i < j
                &&& #[trigger] has_attr(text, attrs, j)
                &&& !is_targeted(text, attrs, j)
                &&& forall|k: int| i < k < j ==> is_targeted(text, attrs, k)
                &&& e2 == byte_offset(text, j)
            };
        assert(has_attr(text, attrs, j2) ==> is_targeted(text, attrs, j2));
    }
}

} // verus!
