use era_launcher::argus::events::{
    ArgusEvent, InputEvent, InputProcessor, KeyCode, KeyModifiers, MouseEventKind,
};

fn key_event(code: KeyCode, modifiers: KeyModifiers) -> InputEvent {
    InputEvent::Key { code, modifiers }
}

#[test]
fn test_tab_forward() {
    let result = InputProcessor::process_event(&key_event(KeyCode::Tab, KeyModifiers::none()));
    assert!(result == Some(ArgusEvent::TabForward));
}

#[test]
fn test_tab_backward() {
    let result = InputProcessor::process_event(&key_event(KeyCode::Tab, KeyModifiers::shift()));
    assert!(result == Some(ArgusEvent::TabBackward));
}

#[test]
fn test_enter() {
    let result = InputProcessor::process_event(&key_event(KeyCode::Enter, KeyModifiers::none()));
    assert!(result == Some(ArgusEvent::Activate));
}

#[test]
fn test_escape() {
    let result = InputProcessor::process_event(&key_event(KeyCode::Esc, KeyModifiers::none()));
    assert!(result == Some(ArgusEvent::Escape));
}

#[test]
fn test_arrow_keys() {
    let none = KeyModifiers::none();
    assert!(InputProcessor::process_event(&key_event(KeyCode::Up, none)) == Some(ArgusEvent::Up));
    assert!(
        InputProcessor::process_event(&key_event(KeyCode::Down, none)) == Some(ArgusEvent::Down)
    );
    assert!(
        InputProcessor::process_event(&key_event(KeyCode::Left, none)) == Some(ArgusEvent::Left)
    );
    assert!(
        InputProcessor::process_event(&key_event(KeyCode::Right, none))
            == Some(ArgusEvent::Right)
    );
}

#[test]
fn test_ctrl_l_focuses_prompt() {
    let result =
        InputProcessor::process_event(&key_event(KeyCode::Char('l'), KeyModifiers::control()));
    assert!(result == Some(ArgusEvent::FocusPrompt));
}

#[test]
fn test_ctrl_c_quits() {
    let result =
        InputProcessor::process_event(&key_event(KeyCode::Char('c'), KeyModifiers::control()));
    assert!(result == Some(ArgusEvent::Quit));
}

#[test]
fn test_ctrl_q_quits() {
    let result =
        InputProcessor::process_event(&key_event(KeyCode::Char('q'), KeyModifiers::control()));
    assert!(result == Some(ArgusEvent::Quit));
}

#[test]
fn test_char_input() {
    let result =
        InputProcessor::process_event(&key_event(KeyCode::Char('a'), KeyModifiers::none()));
    assert!(result == Some(ArgusEvent::Char('a')));
}

#[test]
fn test_char_with_shift_treated_as_char() {
    let result =
        InputProcessor::process_event(&key_event(KeyCode::Char('A'), KeyModifiers::shift()));
    assert!(result == Some(ArgusEvent::Char('A')));
}

#[test]
fn test_backspace() {
    let result =
        InputProcessor::process_event(&key_event(KeyCode::Backspace, KeyModifiers::none()));
    assert!(result == Some(ArgusEvent::Backspace));
}

#[test]
fn test_ctrl_char_ignored() {
    let result =
        InputProcessor::process_event(&key_event(KeyCode::Char('a'), KeyModifiers::control()));
    assert!(result.is_none());
}

#[test]
fn test_resize_event() {
    let result = InputProcessor::process_event(&InputEvent::Resize { cols: 120, rows: 40 });
    assert!(result == Some(ArgusEvent::Resize { cols: 120, rows: 40 }));
}

#[test]
fn test_one_key_one_event() {
    let event = key_event(KeyCode::Tab, KeyModifiers::none());
    let results: Vec<_> = (0..10).map(|_| InputProcessor::process_event(&event)).collect();
    let tab_count = results.iter().filter(|r| **r == Some(ArgusEvent::TabForward)).count();
    assert_eq!(tab_count, 10);
    assert!(results.iter().all(|r| *r == Some(ArgusEvent::TabForward)));
}

#[test]
fn test_f1_ignored() {
    let result = InputProcessor::process_event(&key_event(KeyCode::F(1), KeyModifiers::none()));
    assert!(result.is_none());
}

#[test]
fn test_mouse_click() {
    let result = InputProcessor::process_event(&InputEvent::Mouse {
        kind: MouseEventKind::Down,
        row: 3,
        column: 7,
    });
    assert!(result == Some(ArgusEvent::MouseClick { row: 3, col: 7 }));
    let moved = InputProcessor::process_event(&InputEvent::Mouse {
        kind: MouseEventKind::Other,
        row: 3,
        column: 7,
    });
    assert!(moved.is_none());
}
