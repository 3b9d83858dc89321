//! Text-input events (committed insertions, composition updates and ends,
//! deletion intents) and the conversions of web DOM input and composition
//! data and of `winit` IME payloads into them.

use vstd::prelude::*;

use vstd::string::StringSliceAdditionalSpecFns;

verus! {

/// A byte range in a text, as offsets into its UTF-8 encoding.
#[derive(Clone, Copy, Debug, PartialEq, Eq, Structural, Hash)]
pub struct TextRange {
    /// Byte offset of the start of the range.
    pub start: u32,
    /// Byte offset of the end of the range.
    pub end: u32,
}

/// Where the caret goes after an edit, when the platform says so.
#[derive(Clone, Copy, Debug, PartialEq, Eq, Structural, Hash)]
pub enum TextCursorPlacement {
    /// The platform did not say; the editor's default applies.
    Unspecified,
}

/// A snapshot of an in-progress input-method composition.
#[derive(Clone, Debug, PartialEq, Eq, Hash)]
pub struct CompositionState {
    /// The composing (not yet committed) text.
    pub text: String,
    /// The selected or targeted part of the composing text, if any.
    pub selection: Option<TextRange>,
    /// The document range the composition replaces, if the platform gave one.
    pub replacement_range: Option<TextRange>,
    /// Where the caret goes, if the platform said.
    pub cursor_placement: TextCursorPlacement,
}

/// A committed insertion of text.
#[derive(Clone, Debug, PartialEq, Eq, Hash)]
pub struct TextInsertEvent {
    /// The inserted text.
    pub text: String,
    /// The document range the insertion replaces, if the platform gave one.
    pub replacement_range: Option<TextRange>,
    /// Where the caret goes, if the platform said.
    pub cursor_placement: TextCursorPlacement,
}

/// A text-input event.
#[derive(Clone, Debug, PartialEq, Eq, Hash)]
pub enum TextInputEvent {
    /// Text was committed.
    Insert(TextInsertEvent),
    /// The composition changed to this snapshot.
    CompositionUpdate(CompositionState),
    /// The composition ended.
    CompositionEnd,
    /// Delete backward (Backspace intent).
    DeleteBackward,
    /// Delete forward (Delete intent).
    DeleteForward,
}

/// An insertion of `text` with no replacement range and no caret placement.
pub open spec fn is_plain_insert(e: TextInputEvent, text: Seq<char>) -> bool {
    e matches TextInputEvent::Insert(i) && i.text@ == text && i.replacement_range is None
        && i.cursor_placement == TextCursorPlacement::Unspecified
}

/// A composition snapshot of `text` with the given selection, no replacement
/// range and no caret placement.
pub open spec fn is_plain_composition(
    e: TextInputEvent,
    text: Seq<char>,
    selection: Option<TextRange>,
) -> bool {
    e matches TextInputEvent::CompositionUpdate(c) && c.text@ == text && c.selection
        == selection && c.replacement_range is None && c.cursor_placement
        == TextCursorPlacement::Unspecified
}

/// Whether two string slices hold the same characters.
fn str_eq(a: &str, b: &str) -> (r: bool)
    ensures
        r == (a@ == b@),
{
    let a = a.to_owned();
    let b = b.to_owned();
    a == b
}

/// A committed insertion of `text`.
pub fn insert_event(text: String) -> (e: TextInputEvent)
    ensures
        is_plain_insert(e, text@),
{
    TextInputEvent::Insert(
        TextInsertEvent {
            text,
            replacement_range: None,
            cursor_placement: TextCursorPlacement::Unspecified,
        },
    )
}

/// A composition snapshot of `text` with the given selection.
pub fn composition_event(text: String, selection: Option<TextRange>) -> (e: TextInputEvent)
    ensures
        is_plain_composition(e, text@, selection),
{
    TextInputEvent::CompositionUpdate(
        CompositionState {
            text,
            selection,
            replacement_range: None,
            cursor_placement: TextCursorPlacement::Unspecified,
        },
    )
}

/// Whether a selection may be attached to a composition of `text`: both ends
/// lie within the text and on character boundaries of its UTF-8 encoding.
pub open spec fn selection_fits(text: Seq<char>, selection: TextRange) -> bool {
    let bytes = vstd::utf8::encode_utf8(text);
    &&& selection.start <= bytes.len()
    &&& selection.end <= bytes.len()
    &&& vstd::utf8::is_char_boundary(bytes, selection.start as int)
    &&& vstd::utf8::is_char_boundary(bytes, selection.end as int)
}

/// Whether `selection` fits `text` (see [`selection_fits`]).
pub fn selection_fits_text(text: &str, selection: TextRange) -> (r: bool)
    ensures
        r == selection_fits(text@, selection),
{
    let len = text.as_bytes().len();
    if (selection.start as usize) > len || (selection.end as usize) > len {
        return false;
    }
    text.is_char_boundary(selection.start as usize) && text.is_char_boundary(
        selection.end as usize,
    )
}

/// The DOM `inputType`s whose data is committed (or, while composing,
/// composing) text.
pub open spec fn is_text_input_type(t: Seq<char>) -> bool {
    ||| t == "insertText"@
    ||| t == "insertReplacementText"@
    ||| t == "insertLineBreak"@
    ||| t == "insertParagraph"@
    ||| t == "insertFromComposition"@
    ||| t == "insertFromPaste"@
    ||| t == "insertFromDrop"@
}

/// Whether `input_type` is one of [`is_text_input_type`]'s types.
fn text_input_type(input_type: &str) -> (r: bool)
    ensures
        r == is_text_input_type(input_type@),
{
    str_eq(input_type, "insertText") || str_eq(input_type, "insertReplacementText") || str_eq(
        input_type,
        "insertLineBreak",
    ) || str_eq(input_type, "insertParagraph") || str_eq(input_type, "insertFromComposition")
        || str_eq(input_type, "insertFromPaste") || str_eq(input_type, "insertFromDrop")
}

/// The text of an optional DOM string, empty when absent.
pub open spec fn data_or_empty(data: Option<&str>) -> Seq<char> {
    match data {
        Some(d) => d@,
        None => Seq::empty(),
    }
}

/// Convert raw DOM input-event fields (`inputType`, `data`, `isComposing`)
/// into a text-input event.
///
/// Backward and forward content deletion become the deletion intents;
/// `insertCompositionText` becomes a composition snapshot of its data (empty
/// when absent); the committing insertion types (typing, replacement, line
/// breaks, paragraphs, composition, paste, drop) become an insertion of their
/// data, or a composition snapshot while composing, and nothing when the data
/// is absent or empty. Every other type gives nothing.
pub fn text_event_from_input_type(input_type: &str, data: Option<&str>, is_composing: bool) -> (r:
    Option<TextInputEvent>)
    ensures
        input_type@ == "deleteContentBackward"@ ==> r == Some(TextInputEvent::DeleteBackward),
        input_type@ == "deleteContentForward"@ ==> r == Some(TextInputEvent::DeleteForward),
        input_type@ != "deleteContentBackward"@ && input_type@ != "deleteContentForward"@ ==> {
            if input_type@ == "insertCompositionText"@ {
                r matches Some(e) && is_plain_composition(e, data_or_empty(data), None)
            } else if is_text_input_type(input_type@) {
                if data_or_empty(data).len() == 0 {
                    r is None
                } else if is_composing {
                    r matches Some(e) && is_plain_composition(e, data_or_empty(data), None)
                } else {
                    r matches Some(e) && is_plain_insert(e, data_or_empty(data))
                }
            } else {
                r is None
            }
        },
{
    proof {
        reveal_strlit("deleteContentBackward");
        assert("deleteContentBackward"@.len() == 21);
        reveal_strlit("deleteContentForward");
        assert("deleteContentForward"@.len() == 20);
        reveal_strlit("insertCompositionText");
        assert("insertCompositionText"@.len() == 21);
        reveal_strlit("insertText");
        assert("insertText"@.len() == 10);
        reveal_strlit("insertReplacementText");
        assert("insertReplacementText"@.len() == 21);
        reveal_strlit("insertLineBreak");
        assert("insertLineBreak"@.len() == 15);
        reveal_strlit("insertParagraph");
        assert("insertParagraph"@.len() == 15);
        reveal_strlit("insertFromComposition");
        assert("insertFromComposition"@.len() == 21);
        reveal_strlit("insertFromPaste");
        assert("insertFromPaste"@.len() == 15);
        reveal_strlit("insertFromDrop");
        assert("insertFromDrop"@.len() == 14);
    }
    if str_eq(input_type, "deleteContentBackward") {
        Some(TextInputEvent::DeleteBackward)
    } else if str_eq(input_type, "deleteContentForward") {
        Some(TextInputEvent::DeleteForward)
    } else if str_eq(input_type, "insertCompositionText") {
        let text = match data {
            Some(d) => d.to_owned(),
            None => String::new(),
        };
        Some(composition_event(text, None))
    } else if text_input_type(input_type) {
        let text = match data {
            Some(d) => d,
            None => {
                return None;
            },
        };
        if text.is_empty() {
            None
        } else if is_composing {
            Some(composition_event(text.to_owned(), None))
        } else {
            Some(insert_event(text.to_owned()))
        }
    } else {
        None
    }
}

/// Convert raw DOM composition-event fields (event type and `data`) into a
/// text-input event: `compositionupdate` becomes a composition snapshot of
/// its data (empty when absent) and `compositionend` ends the composition;
/// its data is not committed here, because the committed text arrives
/// through the input-event path. `compositionstart` and every other type give
/// nothing.
pub fn text_event_from_composition_type(event_type: &str, data: Option<&str>) -> (r: Option<
    TextInputEvent,
>)
    ensures
        event_type@ == "compositionupdate"@ ==> (r matches Some(e) && is_plain_composition(
            e,
            data_or_empty(data),
            None,
        )),
        event_type@ == "compositionend"@ ==> r == Some(TextInputEvent::CompositionEnd),
        event_type@ != "compositionupdate"@ && event_type@ != "compositionend"@ ==> r is None,
{
    proof {
        reveal_strlit("compositionstart");
        assert("compositionstart"@.len() == 16);
        reveal_strlit("compositionupdate");
        assert("compositionupdate"@.len() == 17);
        reveal_strlit("compositionend");
        assert("compositionend"@.len() == 14);
    }
    if str_eq(event_type, "compositionstart") {
        None
    } else if str_eq(event_type, "compositionupdate") {
        let text = match data {
            Some(d) => d.to_owned(),
            None => String::new(),
        };
        Some(composition_event(text, None))
    } else if str_eq(event_type, "compositionend") {
        Some(TextInputEvent::CompositionEnd)
    } else {
        None
    }
}

/// An input-method event as `winit` reports it.
#[derive(Clone, Debug, PartialEq, Eq, Hash)]
pub enum ImeInput {
    /// The input method was enabled.
    Enabled,
    /// The composing text changed; the optional pair is the byte range of the
    /// selection (or caret) within it.
    Preedit(String, Option<(usize, usize)>),
    /// Text was committed.
    Commit(String),
    /// The input method was disabled.
    Disabled,
}

/// The selection of a preedit, when both offsets fit in a `u32`.
pub open spec fn preedit_selection(selection: Option<(usize, usize)>) -> Option<TextRange> {
    match selection {
        Some((start, end)) => if start <= u32::MAX && end <= u32::MAX {
            Some(TextRange { start: start as u32, end: end as u32 })
        } else {
            None
        },
        None => None,
    }
}

/// Whether `r` is the single event `e`-satisfying list described.
pub open spec fn is_single(r: Option<Vec<TextInputEvent>>, p: spec_fn(TextInputEvent) -> bool) -> bool {
    r matches Some(v) && v@.len() == 1 && p(v@[0])
}

/// Convert a `winit` IME payload into text-input events.
///
/// A non-empty preedit becomes a composition snapshot carrying its selection
/// (offsets that do not fit in a `u32` drop the selection), and nothing when
/// the selection does not fit the text; an empty preedit ends the
/// composition. A non-empty commit becomes an insertion. An empty commit and
/// the enable/disable notifications, which are left to the caller, give
/// nothing.
pub fn from_winit_ime(ime: &ImeInput) -> (r: Option<Vec<TextInputEvent>>)
    ensures
        match *ime {
            ImeInput::Preedit(text, selection) => if text@.len() == 0 {
                is_single(r, |e: TextInputEvent| e == TextInputEvent::CompositionEnd)
            } else {
                match preedit_selection(selection) {
                    Some(range) if !selection_fits(text@, range) => r is None,
                    sel => is_single(r, |e: TextInputEvent| is_plain_composition(e, text@, sel)),
                }
            },
            ImeInput::Commit(text) => if text@.len() == 0 {
                r is None
            } else {
                is_single(r, |e: TextInputEvent| is_plain_insert(e, text@))
            },
            _ => r is None,
        },
{
    match ime {
        ImeInput::Preedit(text, selection) => {
            if text.as_str().is_empty() {
                return Some(vec![TextInputEvent::CompositionEnd]);
            }
            let range = match selection {
                Some((start, end)) => {
                    if *start <= 0xffff_ffffusize && *end <= 0xffff_ffffusize {
                        Some(TextRange { start: *start as u32, end: *end as u32 })
                    } else {
                        None
                    }
                },
                None => None,
            };
            if let Some(range) = range {
                if !selection_fits_text(text.as_str(), range) {
                    return None;
                }
            }
            Some(vec![composition_event(text.clone(), range)])
        },
        ImeInput::Commit(text) => {
            if text.as_str().is_empty() {
                None
            } else {
                Some(vec![insert_event(text.clone())])
            }
        },
        _ => None,
    }
}

} // verus!
