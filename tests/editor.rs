use envfetch::controller::{handle_add_mode, handle_delete_mode, handle_edit_mode, handle_list_mode};
use envfetch::interactive::InteractiveApp;
use envfetch::keys::{KeyCode, KeyEvent, KeyModifiers};
use envfetch::state::{AppState, InputFocus, Mode};

#[test]
fn test_show_and_clear_message() {
    let mut state = AppState::new(vec![]);
    state.show_message("Test", 1000);
    assert_eq!(state.message, Some("Test".to_string()));
    state.clear_message();
    assert!(state.message.is_none());
}

#[test]
fn test_add_variable() {
    let mut state = AppState::new(vec![]);
    state.mode = Mode::Add;
    state.input_key = "VAR1".to_string();
    state.input_value = "VALUE1".to_string();
    // Simulate pressing Enter in add mode.
    if !state.input_key.trim().is_empty() {
        state.entries.push((
            state.input_key.trim().to_string(),
            state.input_value.trim().to_string(),
        ));
        state.mode = Mode::List;
    }
    assert_eq!(state.entries.len(), 1);
    assert_eq!(state.entries[0], ("VAR1".to_string(), "VALUE1".to_string()));
}

#[test]
fn test_toggle_input_focus() {
    let mut state = AppState::new(vec![]);
    state.mode = Mode::Add;
    state.input_focus = InputFocus::Key;
    // Simulate pressing Tab.
    state.input_focus = match state.input_focus {
        InputFocus::Key => InputFocus::Value,
        InputFocus::Value => InputFocus::Key,
    };
    assert_eq!(state.input_focus, InputFocus::Value);
}

#[test]
fn test_edit_variable() {
    let mut state = AppState::new(vec![("VAR1".to_string(), "OLD".to_string())]);
    state.mode = Mode::Edit("VAR1".to_string());
    state.input_value = "NEW".to_string();
    if let Mode::Edit(ref key) = state.mode {
        if let Some(entry) = state.entries.iter_mut().find(|(k, _)| k == key) {
            entry.1 = state.input_value.trim().to_string();
            state.mode = Mode::List;
        }
    }
    assert_eq!(state.entries[0], ("VAR1".to_string(), "NEW".to_string()));
}

#[test]
fn tests_test_delete_variable() {
    let mut state = AppState::new(vec![("VAR1".to_string(), "VALUE1".to_string())]);
    state.mode = Mode::Delete("VAR1".to_string());
    state.entries.retain(|(k, _)| k != "VAR1");
    state.mode = Mode::List;
    assert!(state.entries.is_empty());
}

#[test]
fn test_reload() {
    // Start with one entry.
    let mut state = AppState::new(vec![("VAR1".to_string(), "OLD".to_string())]);
    // The variables read afresh from the environment.
    let fresh = vec![
        ("VAR1".to_string(), "NEW".to_string()),
        ("VAR2".to_string(), "VALUE2".to_string()),
    ];
    state.request_reload();
    state.reload(fresh);
    // After reload, we expect exactly 2 entries.
    assert_eq!(state.entries.len(), 2);
    assert_eq!(state.entries[0], ("VAR1".to_string(), "NEW".to_string()));
}

#[test]
fn test_interactive_app_creation() {
    let app = InteractiveApp::new(vec![("PATH".to_string(), "/usr/bin".to_string())]);
    assert!(!app.state.should_quit);
    assert!(!app.state.entries.is_empty());
}

#[test]
fn tests_test_handle_list_mode_quit() {

    let mut state = AppState::new(vec![]);
    let key_event = KeyEvent::new(KeyCode::Char('q'), KeyModifiers::control());
    handle_list_mode(&mut state, key_event);
    assert!(state.should_quit);
}

#[test]
fn tests_test_handle_list_mode_add() {

    let mut state = AppState::new(vec![]);
    let key_event = KeyEvent::new(KeyCode::Char('a'), KeyModifiers::empty());
    handle_list_mode(&mut state, key_event);
    assert_eq!(state.mode, Mode::Add);
    assert_eq!(state.input_key, "");
    assert_eq!(state.input_value, "");
    assert_eq!(state.input_cursor_key, 0);
    assert_eq!(state.input_cursor_value, 0);
    assert_eq!(state.input_focus, InputFocus::Key);
}

#[test]
fn tests_test_handle_list_mode_edit() {

    let mut state = AppState::new(vec![("VAR1".to_string(), "VALUE1".to_string())]);
    let key_event = KeyEvent::new(KeyCode::Char('e'), KeyModifiers::empty());
    handle_list_mode(&mut state, key_event);
    assert_eq!(state.mode, Mode::Edit("VAR1".to_string()));
    assert_eq!(state.input_value, "VALUE1".to_string());
    assert_eq!(state.input_cursor_value, 6);
}

#[test]
fn tests_test_handle_list_mode_delete() {

    let mut state = AppState::new(vec![("VAR1".to_string(), "VALUE1".to_string())]);
    let key_event = KeyEvent::new(KeyCode::Char('d'), KeyModifiers::empty());
    handle_list_mode(&mut state, key_event);
    assert_eq!(state.mode, Mode::Delete("VAR1".to_string()));
}

#[test]
fn tests_test_handle_list_mode_down() {

    let mut state = AppState::new(vec![
        ("VAR1".to_string(), "VALUE1".to_string()),
        ("VAR2".to_string(), "VALUE2".to_string()),
    ]);
    let key_event = KeyEvent::new(KeyCode::Down, KeyModifiers::empty());
    handle_list_mode(&mut state, key_event);
    assert_eq!(state.current_index, 1);
}

#[test]
fn tests_test_handle_list_mode_up() {

    let mut state = AppState::new(vec![
        ("VAR1".to_string(), "VALUE1".to_string()),
        ("VAR2".to_string(), "VALUE2".to_string()),
    ]);
    state.current_index = 1;
    let key_event = KeyEvent::new(KeyCode::Up, KeyModifiers::empty());
    handle_list_mode(&mut state, key_event);
    assert_eq!(state.current_index, 0);
}

#[test]
fn tests_test_handle_list_mode_reload() {

    let mut state = AppState::new(vec![]);
    let key_event = KeyEvent::new(KeyCode::Char('r'), KeyModifiers::control());
    handle_list_mode(&mut state, key_event);
    assert!(state.reload_requested);
}

#[test]
fn tests_test_handle_add_mode_enter() {

    let mut state = AppState::new(vec![]);
    state.mode = Mode::Add;
    state.input_key = "VAR1".to_string();
    state.input_value = "VALUE1".to_string();
    let key_event = KeyEvent::new(KeyCode::Enter, KeyModifiers::empty());
    handle_add_mode(&mut state, key_event);
}

#[test]
fn tests_test_handle_add_mode_enter_empty_key() {

    let mut state = AppState::new(vec![]);
    state.mode = Mode::Add;
    state.input_key = "".to_string();
    state.input_value = "VALUE1".to_string();
    let key_event = KeyEvent::new(KeyCode::Enter, KeyModifiers::empty());
    handle_add_mode(&mut state, key_event);
    assert_eq!(state.entries.len(), 0);
    assert_eq!(state.mode, Mode::Add);
    assert_eq!(state.message, Some("Key cannot be empty".to_string()));
}

#[test]
fn tests_test_handle_add_mode_esc() {

    let mut state = AppState::new(vec![]);
    state.mode = Mode::Add;
    let key_event = KeyEvent::new(KeyCode::Esc, KeyModifiers::empty());
    handle_add_mode(&mut state, key_event);
    assert_eq!(state.mode, Mode::List);
}

#[test]
fn tests_test_handle_add_mode_tab() {

    let mut state = AppState::new(vec![]);
    state.mode = Mode::Add;
    state.input_focus = InputFocus::Key;
    let key_event = KeyEvent::new(KeyCode::Tab, KeyModifiers::empty());
    handle_add_mode(&mut state, key_event);
    assert_eq!(state.input_focus, InputFocus::Value);

    state.input_focus = InputFocus::Value;
    handle_add_mode(&mut state, key_event);
    assert_eq!(state.input_focus, InputFocus::Key);
}

#[test]
fn tests_test_handle_add_mode_left() {

    let mut state = AppState::new(vec![]);
    state.mode = Mode::Add;
    state.input_focus = InputFocus::Key;
    state.input_cursor_key = 1;
    let key_event = KeyEvent::new(KeyCode::Left, KeyModifiers::empty());
    handle_add_mode(&mut state, key_event);
    assert_eq!(state.input_cursor_key, 0);

    state.input_focus = InputFocus::Value;
    state.input_cursor_value = 1;
    handle_add_mode(&mut state, key_event);
    assert_eq!(state.input_cursor_value, 0);
}

#[test]
fn tests_test_handle_add_mode_right() {

    let mut state = AppState::new(vec![]);
    state.mode = Mode::Add;
    state.input_focus = InputFocus::Key;
    state.input_key = "VAR1".to_string();
    state.input_cursor_key = 0;
    let key_event = KeyEvent::new(KeyCode::Right, KeyModifiers::empty());
    handle_add_mode(&mut state, key_event);
    assert_eq!(state.input_cursor_key, 1);

    state.input_focus = InputFocus::Value;
    state.input_value = "VALUE1".to_string();
    state.input_cursor_value = 0;
    handle_add_mode(&mut state, key_event);
    assert_eq!(state.input_cursor_value, 1);
}

#[test]
fn tests_test_handle_add_mode_backspace() {

    let mut state = AppState::new(vec![]);
    state.mode = Mode::Add;
    state.input_focus = InputFocus::Key;
    state.input_key = "VAR1".to_string();
    state.input_cursor_key = 4;
    let key_event = KeyEvent::new(KeyCode::Backspace, KeyModifiers::empty());
    handle_add_mode(&mut state, key_event);
    assert_eq!(state.input_key, "VAR".to_string());
    assert_eq!(state.input_cursor_key, 3);

    state.input_focus = InputFocus::Value;
    state.input_value = "VALUE1".to_string();
    state.input_cursor_value = 6;
    handle_add_mode(&mut state, key_event);
    assert_eq!(state.input_value, "VALUE".to_string());
    assert_eq!(state.input_cursor_value, 5);
}

#[test]
fn tests_test_handle_add_mode_char() {

    let mut state = AppState::new(vec![]);
    state.mode = Mode::Add;
    state.input_focus = InputFocus::Key;
    state.input_key = "VAR".to_string();
    state.input_cursor_key = 3;
    let key_event = KeyEvent::new(KeyCode::Char('1'), KeyModifiers::empty());
    handle_add_mode(&mut state, key_event);
    assert_eq!(state.input_key, "VAR1".to_string());
    assert_eq!(state.input_cursor_key, 4);

    state.input_focus = InputFocus::Value;
    state.input_value = "VALUE".to_string();
    state.input_cursor_value = 5;
    handle_add_mode(&mut state, key_event);
    assert_eq!(state.input_value, "VALUE1".to_string());
    assert_eq!(state.input_cursor_value, 6);
}

#[test]
fn tests_test_handle_edit_mode_enter() {

    let mut state = AppState::new(vec![("VAR1".to_string(), "OLD".to_string())]);
    state.mode = Mode::Edit("VAR1".to_string());
    state.input_value = "NEW".to_string();
    let key_event = KeyEvent::new(KeyCode::Enter, KeyModifiers::empty());
    handle_edit_mode(&mut state, key_event);
}

#[test]
fn tests_test_handle_edit_mode_esc() {

    let mut state = AppState::new(vec![("VAR1".to_string(), "OLD".to_string())]);
    state.mode = Mode::Edit("VAR1".to_string());
    let key_event = KeyEvent::new(KeyCode::Esc, KeyModifiers::empty());
    handle_edit_mode(&mut state, key_event);
    assert_eq!(state.mode, Mode::List);
}

#[test]
fn tests_test_handle_edit_mode_left() {

    let mut state = AppState::new(vec![("VAR1".to_string(), "OLD".to_string())]);
    state.mode = Mode::Edit("VAR1".to_string());
    state.input_cursor_value = 1;
    let key_event = KeyEvent::new(KeyCode::Left, KeyModifiers::empty());
    handle_edit_mode(&mut state, key_event);
    assert_eq!(state.input_cursor_value, 0);
}

#[test]
fn tests_test_handle_edit_mode_right() {

    let mut state = AppState::new(vec![("VAR1".to_string(), "OLD".to_string())]);
    state.mode = Mode::Edit("VAR1".to_string());
    state.input_value = "OLD".to_string();
    state.input_cursor_value = 0;
    let key_event = KeyEvent::new(KeyCode::Right, KeyModifiers::empty());
    handle_edit_mode(&mut state, key_event);
    assert_eq!(state.input_cursor_value, 1);
}

#[test]
fn tests_test_handle_edit_mode_backspace() {

    let mut state = AppState::new(vec![("VAR1".to_string(), "OLD".to_string())]);
    state.mode = Mode::Edit("VAR1".to_string());
    state.input_value = "OLD".to_string();
    state.input_cursor_value = 3;
    let key_event = KeyEvent::new(KeyCode::Backspace, KeyModifiers::empty());
    handle_edit_mode(&mut state, key_event);
    assert_eq!(state.input_value, "OL".to_string());
    assert_eq!(state.input_cursor_value, 2);
}

#[test]
fn tests_test_handle_edit_mode_char() {

    let mut state = AppState::new(vec![("VAR1".to_string(), "OLD".to_string())]);
    state.mode = Mode::Edit("VAR1".to_string());
    state.input_value = "OL".to_string();
    state.input_cursor_value = 2;
    let key_event = KeyEvent::new(KeyCode::Char('D'), KeyModifiers::empty());
    handle_edit_mode(&mut state, key_event);
    assert_eq!(state.input_value, "OLD".to_string());
    assert_eq!(state.input_cursor_value, 3);
}

#[test]
fn tests_test_handle_delete_mode_yes() {

    let mut state = AppState::new(vec![("VAR1".to_string(), "OLD".to_string())]);
    state.mode = Mode::Delete("VAR1".to_string());
    let key_event = KeyEvent::new(KeyCode::Char('y'), KeyModifiers::empty());
    handle_delete_mode(&mut state, key_event);
}

#[test]
fn tests_test_handle_delete_mode_no() {

    let mut state = AppState::new(vec![("VAR1".to_string(), "OLD".to_string())]);
    state.mode = Mode::Delete("VAR1".to_string());
    let key_event = KeyEvent::new(KeyCode::Char('n'), KeyModifiers::empty());
    handle_delete_mode(&mut state, key_event);
    assert_eq!(state.entries.len(), 1);
    assert_eq!(state.mode, Mode::List);

    state.mode = Mode::Delete("VAR1".to_string());
    let key_event = KeyEvent::new(KeyCode::Esc, KeyModifiers::empty());
    handle_delete_mode(&mut state, key_event);
    assert_eq!(state.entries.len(), 1);
    assert_eq!(state.mode, Mode::List);
}
