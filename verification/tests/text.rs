use ui_events_adapters::text::{
    composition_event, from_winit_ime, insert_event, text_event_from_composition_type,
    text_event_from_input_type, ImeInput, TextCursorPlacement, TextInputEvent, TextRange,
};

#[test]
fn input_insert_maps_to_text_insert() {
    assert_eq!(
        text_event_from_input_type("insertText", Some("é"), false),
        Some(insert_event("é".to_string()))
    );
}

#[test]
fn input_composition_maps_to_snapshot() {
    assert_eq!(
        text_event_from_input_type("insertCompositionText", Some("ni"), true),
        Some(composition_event("ni".to_string(), None))
    );
}

#[test]
fn input_delete_maps_to_delete_intent() {
    assert_eq!(
        text_event_from_input_type("deleteContentBackward", None, false),
        Some(TextInputEvent::DeleteBackward)
    );
    assert_eq!(
        text_event_from_input_type("deleteContentForward", None, false),
        Some(TextInputEvent::DeleteForward)
    );
}

#[test]
fn composition_events_map_to_update_and_end() {
    assert_eq!(
        text_event_from_composition_type("compositionupdate", Some("に")),
        Some(composition_event("に".to_string(), None))
    );
    assert_eq!(
        text_event_from_composition_type("compositionend", Some("に")),
        Some(TextInputEvent::CompositionEnd)
    );
}

#[test]
fn web_does_not_populate_android_specific_text_fields() {
    match text_event_from_input_type("insertText", Some("é"), false) {
        Some(TextInputEvent::Insert(insert)) => {
            assert_eq!(insert.replacement_range, None);
            assert_eq!(insert.cursor_placement, TextCursorPlacement::Unspecified);
        }
        other => panic!("unexpected event: {other:?}"),
    }

    match text_event_from_input_type("insertCompositionText", Some("ni"), true) {
        Some(TextInputEvent::CompositionUpdate(state)) => {
            assert_eq!(state.replacement_range, None);
            assert_eq!(state.cursor_placement, TextCursorPlacement::Unspecified);
        }
        other => panic!("unexpected event: {other:?}"),
    }
}

#[test]
fn preedit_maps_to_composition_update() {
    assert_eq!(
        from_winit_ime(&ImeInput::Preedit("ni".into(), Some((2, 2)))),
        Some(vec![composition_event("ni".to_string(), Some(TextRange { start: 2, end: 2 }))])
    );
}

#[test]
fn empty_preedit_maps_to_composition_end() {
    assert_eq!(
        from_winit_ime(&ImeInput::Preedit("".into(), None)),
        Some(vec![TextInputEvent::CompositionEnd])
    );
}

#[test]
fn preedit_rejects_invalid_selection_offsets() {
    assert_eq!(from_winit_ime(&ImeInput::Preedit("a🙂b".into(), Some((2, 5)))), None);
}

#[test]
fn commit_maps_to_insert() {
    assert_eq!(
        from_winit_ime(&ImeInput::Commit("é".into())),
        Some(vec![insert_event("é".to_string())])
    );
}

#[test]
fn winit_does_not_populate_android_specific_text_fields() {
    match from_winit_ime(&ImeInput::Preedit("ni".into(), Some((2, 2)))).as_deref() {
        Some([TextInputEvent::CompositionUpdate(state)]) => {
            assert_eq!(state.replacement_range, None);
            assert_eq!(state.cursor_placement, TextCursorPlacement::Unspecified);
        }
        other => panic!("unexpected event: {other:?}"),
    }

    match from_winit_ime(&ImeInput::Commit("é".into())).as_deref() {
        Some([TextInputEvent::Insert(insert)]) => {
            assert_eq!(insert.replacement_range, None);
            assert_eq!(insert.cursor_placement, TextCursorPlacement::Unspecified);
        }
        other => panic!("unexpected event: {other:?}"),
    }
}

#[test]
fn web_insert_without_data_or_while_composing() {
    assert_eq!(text_event_from_input_type("insertText", None, false), None);
    assert_eq!(text_event_from_input_type("insertFromPaste", Some(""), false), None);
    assert_eq!(
        text_event_from_input_type("insertLineBreak", Some("\n"), true),
        Some(composition_event("\n".to_string(), None))
    );
    assert_eq!(
        text_event_from_input_type("insertCompositionText", None, false),
        Some(composition_event(String::new(), None))
    );
    assert_eq!(text_event_from_input_type("formatBold", Some("x"), false), None);
}

#[test]
fn web_composition_start_and_unknown_types_give_nothing() {
    assert_eq!(text_event_from_composition_type("compositionstart", Some("x")), None);
    assert_eq!(text_event_from_composition_type("keydown", Some("x")), None);
    assert_eq!(
        text_event_from_composition_type("compositionupdate", None),
        Some(composition_event(String::new(), None))
    );
}

#[test]
fn winit_lifecycle_and_empty_commit_give_nothing() {
    assert_eq!(from_winit_ime(&ImeInput::Enabled), None);
    assert_eq!(from_winit_ime(&ImeInput::Disabled), None);
    assert_eq!(from_winit_ime(&ImeInput::Commit(String::new())), None);
}

#[test]
fn winit_oversized_selection_offsets_are_dropped() {
    let big = (u32::MAX as usize) + 1;
    assert_eq!(
        from_winit_ime(&ImeInput::Preedit("ab".into(), Some((0, big)))),
        Some(vec![composition_event("ab".to_string(), None)])
    );
    // A boundary inside a multi-byte character is refused.
    assert_eq!(from_winit_ime(&ImeInput::Preedit("é".into(), Some((1, 1)))), None);
    assert_eq!(
        from_winit_ime(&ImeInput::Preedit("é".into(), Some((0, 2)))),
        Some(vec![composition_event("é".to_string(), Some(TextRange { start: 0, end: 2 }))])
    );
}
