use orbit_tui::action::Action;
use orbit_tui::input::{handle_key_event, KeyCode, KeyEvent};

fn key(code: KeyCode) -> KeyEvent {
    KeyEvent { code, ctrl: false }
}

#[test]
fn keys_map_to_actions() {
    assert_eq!(handle_key_event(key(KeyCode::Char('q'))), Some(Action::Quit));
    assert_eq!(handle_key_event(key(KeyCode::Char('j'))), Some(Action::NavigateUp));
    assert_eq!(handle_key_event(key(KeyCode::Up)), Some(Action::NavigateUp));
    assert_eq!(handle_key_event(key(KeyCode::Char('k'))), Some(Action::NavigateDown));
    assert_eq!(handle_key_event(key(KeyCode::Down)), Some(Action::NavigateDown));
    assert_eq!(handle_key_event(key(KeyCode::Enter)), Some(Action::Select));
    assert_eq!(handle_key_event(key(KeyCode::Esc)), Some(Action::Back));
}

#[test]
fn interrupt_chord_quits() {
    let k = KeyEvent { code: KeyCode::Char('c'), ctrl: true };
    assert_eq!(handle_key_event(k), Some(Action::Quit));
}

#[test]
fn other_keys_give_nothing() {
    assert_eq!(handle_key_event(key(KeyCode::Char('c'))), None);
    assert_eq!(handle_key_event(key(KeyCode::Char('x'))), None);
    assert_eq!(handle_key_event(key(KeyCode::Other)), None);
}
