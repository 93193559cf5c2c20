use kv_editor::app::{App, CurrentScreen, CurrentlyEditing};
use kv_editor::events::{KeyCode, KeyEvent, KeyKind};

fn press(code: KeyCode) -> KeyEvent {
    KeyEvent {
        kind: KeyKind::Press,
        code,
    }
}

fn press_char(c: char) -> KeyEvent {
    press(KeyCode::Character(c))
}

fn type_str(app: &mut App, s: &str) {
    for c in s.chars() {
        assert_eq!(app.handle_event(press_char(c)), None);
    }
}

/// Drives a whole pair through the editor: e, key, Enter, value, Enter.
fn commit_pair(app: &mut App, key: &str, value: &str) {
    assert_eq!(app.handle_event(press_char('e')), None);
    type_str(app, key);
    assert_eq!(app.handle_event(press(KeyCode::Enter)), None);
    type_str(app, value);
    assert_eq!(app.handle_event(press(KeyCode::Enter)), None);
}

#[test]
fn fresh_session_is_browsing_and_empty() {
    let app = App::new();
    assert_eq!(app.key_input, "");
    assert_eq!(app.value_input, "");
    assert!(app.pairs.is_empty());
    assert_eq!(app.current_screen, CurrentScreen::Main);
    assert_eq!(app.currently_editing, None);
}

#[test]
fn buffer_length_tracks_appends_and_effective_deletes() {
    let mut app = App::new();
    app.handle_event(press_char('e'));
    // Three appends, one delete: length 3 + 0 - 1 == 2.
    type_str(&mut app, "abc");
    app.handle_event(press(KeyCode::Backspace));
    assert_eq!(app.key_input, "ab");
    // Two more deletes empty the buffer; two further deletes are no-ops.
    app.handle_event(press(KeyCode::Backspace));
    app.handle_event(press(KeyCode::Backspace));
    assert_eq!(app.key_input, "");
    app.handle_event(press(KeyCode::Backspace));
    app.handle_event(press(KeyCode::Backspace));
    assert_eq!(app.key_input, "");
    // One more append lands on the emptied buffer.
    app.handle_event(press_char('z'));
    assert_eq!(app.key_input, "z");
}

#[test]
fn commit_stores_pair_and_returns_to_browsing() {
    let mut app = App::new();
    commit_pair(&mut app, "k", "v");
    assert_eq!(app.pairs, vec![("k".to_string(), "v".to_string())]);
    assert_eq!(app.key_input, "");
    assert_eq!(app.value_input, "");
    assert_eq!(app.current_screen, CurrentScreen::Main);
    assert_eq!(app.currently_editing, None);
}

#[test]
fn overwrite_keeps_one_entry_with_second_value() {
    let mut app = App::new();
    commit_pair(&mut app, "k", "first");
    commit_pair(&mut app, "k", "second");
    assert_eq!(app.pairs, vec![("k".to_string(), "second".to_string())]);
}

#[test]
fn cancel_discards_drafts_and_keeps_store() {
    let mut app = App::new();
    commit_pair(&mut app, "kept", "pair");
    app.handle_event(press_char('e'));
    type_str(&mut app, "doomed");
    app.handle_event(press(KeyCode::Tab));
    type_str(&mut app, "draft");
    assert_eq!(app.handle_event(press(KeyCode::Escape)), None);
    assert_eq!(app.pairs, vec![("kept".to_string(), "pair".to_string())]);
    assert_eq!(app.key_input, "");
    assert_eq!(app.value_input, "");
    assert_eq!(app.current_screen, CurrentScreen::Main);
    assert_eq!(app.currently_editing, None);
}

#[test]
fn fresh_editing_after_cancel_starts_clean() {
    let mut app = App::new();
    app.handle_event(press_char('e'));
    type_str(&mut app, "stale");
    app.handle_event(press(KeyCode::Escape));
    app.handle_event(press_char('e'));
    assert_eq!(app.key_input, "");
    assert_eq!(app.value_input, "");
    assert_eq!(app.currently_editing, Some(CurrentlyEditing::Key));
}

#[test]
fn tab_toggles_focus_and_double_tab_restores_it() {
    let mut app = App::new();
    app.handle_event(press_char('e'));
    assert_eq!(app.currently_editing, Some(CurrentlyEditing::Key));
    app.handle_event(press(KeyCode::Tab));
    assert_eq!(app.currently_editing, Some(CurrentlyEditing::Value));
    app.handle_event(press(KeyCode::Tab));
    assert_eq!(app.currently_editing, Some(CurrentlyEditing::Key));
}

#[test]
fn invalid_events_leave_browsing_state_untouched() {
    let mut app = App::new();
    for ev in [
        press(KeyCode::Enter),
        press(KeyCode::Backspace),
        press(KeyCode::Escape),
        press(KeyCode::Tab),
        press(KeyCode::Other),
        press_char('x'),
    ] {
        assert_eq!(app.handle_event(ev), None);
        assert_eq!(app.current_screen, CurrentScreen::Main);
        assert_eq!(app.currently_editing, None);
        assert_eq!(app.key_input, "");
        assert_eq!(app.value_input, "");
        assert!(app.pairs.is_empty());
    }
}

#[test]
fn invalid_events_leave_exit_prompt_untouched() {
    let mut app = App::new();
    app.handle_event(press_char('q'));
    for ev in [
        press(KeyCode::Enter),
        press(KeyCode::Escape),
        press_char('x'),
        press_char('e'),
    ] {
        assert_eq!(app.handle_event(ev), None);
        assert_eq!(app.current_screen, CurrentScreen::Exiting);
    }
}

#[test]
fn releases_are_ignored_everywhere() {
    let mut app = App::new();
    let release_e = KeyEvent {
        kind: KeyKind::Release,
        code: KeyCode::Character('e'),
    };
    assert_eq!(app.handle_event(release_e), None);
    assert_eq!(app.current_screen, CurrentScreen::Main);
    app.handle_event(press_char('q'));
    let release_y = KeyEvent {
        kind: KeyKind::Release,
        code: KeyCode::Character('y'),
    };
    assert_eq!(app.handle_event(release_y), None);
    assert_eq!(app.current_screen, CurrentScreen::Exiting);
}

#[test]
fn editing_ignores_auto_repeat_but_browsing_honors_it() {
    let mut app = App::new();
    app.handle_event(press_char('e'));
    let repeat_x = KeyEvent {
        kind: KeyKind::Repeat,
        code: KeyCode::Character('x'),
    };
    assert_eq!(app.handle_event(repeat_x), None);
    assert_eq!(app.key_input, "");
    app.handle_event(press(KeyCode::Escape));
    let repeat_q = KeyEvent {
        kind: KeyKind::Repeat,
        code: KeyCode::Character('q'),
    };
    assert_eq!(app.handle_event(repeat_q), None);
    assert_eq!(app.current_screen, CurrentScreen::Exiting);
}

#[test]
fn exit_prompt_answers_terminate_with_the_chosen_verdict() {
    let mut app = App::new();
    assert_eq!(app.handle_event(press_char('q')), None);
    assert_eq!(app.current_screen, CurrentScreen::Exiting);
    assert_eq!(app.handle_event(press_char('y')), Some(true));

    let mut app = App::new();
    app.handle_event(press_char('q'));
    assert_eq!(app.handle_event(press_char('n')), Some(false));
}

#[test]
fn end_to_end_session_prints_the_store_once() {
    let mut app = App::new();
    commit_pair(&mut app, "name", "Ann");
    assert_eq!(app.handle_event(press_char('q')), None);
    assert_eq!(app.handle_event(press_char('y')), Some(true));
    assert_eq!(app.to_json(), "{\"name\":\"Ann\"}");
}

#[test]
fn empty_store_serializes_to_empty_object() {
    let app = App::new();
    assert_eq!(app.to_json(), "{}");
}

#[test]
fn serialization_emits_entries_in_sorted_key_order() {
    let mut app = App::new();
    commit_pair(&mut app, "b", "2");
    commit_pair(&mut app, "a", "1");
    assert_eq!(app.to_json(), "{\"a\":\"1\",\"b\":\"2\"}");
}

#[test]
fn empty_key_and_value_commit_is_stored() {
    let mut app = App::new();
    app.handle_event(press_char('e'));
    app.handle_event(press(KeyCode::Enter));
    app.handle_event(press(KeyCode::Enter));
    assert_eq!(app.pairs, vec![("".to_string(), "".to_string())]);
    assert_eq!(app.to_json(), "{\"\":\"\"}");
}

#[test]
fn structural_characters_are_accepted_verbatim() {
    let mut app = App::new();
    commit_pair(&mut app, "a\"b", "c\\d");
    assert_eq!(app.to_json(), "{\"a\\\"b\":\"c\\\\d\"}");
}

#[test]
fn direct_operations_work_without_the_dispatcher() {
    let mut app = App::new();
    // Toggling from an unfocused state focuses the key buffer.
    app.toggle_editing_mode();
    assert_eq!(app.currently_editing, Some(CurrentlyEditing::Key));
    app.toggle_editing_mode();
    assert_eq!(app.currently_editing, Some(CurrentlyEditing::Value));
    // save commits whatever the drafts hold and clears them.
    app.key_input = "k".to_string();
    app.value_input = "v".to_string();
    app.save_key_value_pair();
    assert_eq!(app.pairs, vec![("k".to_string(), "v".to_string())]);
    assert_eq!(app.key_input, "");
    assert_eq!(app.value_input, "");
    assert_eq!(app.currently_editing, None);
}
