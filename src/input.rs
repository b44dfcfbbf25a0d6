use vstd::prelude::*;

use crate::action::Action;

verus! {

/// The key that was pressed.
#[derive(Debug, Clone, Copy, PartialEq, Eq, Structural)]
pub enum KeyCode {
    Char(char),
    Up,
    Down,
    Enter,
    Esc,
    Other,
}

/// A key press: the key, and whether the control modifier was held.
#[derive(Debug, Clone, Copy, PartialEq, Eq, Structural)]
pub struct KeyEvent {
    pub code: KeyCode,
    pub ctrl: bool,
}

/// The action a key press stands for, if any.
pub open spec fn key_action(key: KeyEvent) -> Option<Action> {
    match key.code {
        KeyCode::Char('q') => Some(Action::Quit),
        KeyCode::Char('j') | KeyCode::Up => Some(Action::NavigateUp),
        KeyCode::Char('k') | KeyCode::Down => Some(Action::NavigateDown),
        KeyCode::Enter => Some(Action::Select),
        KeyCode::Esc => Some(Action::Back),
        KeyCode::Char('c') if key.ctrl => Some(Action::Quit),
        _ => None,
    }
}

/// Translate a key press into the action it stands for.
pub fn handle_key_event(key: KeyEvent) -> (r: Option<Action>)
    ensures
        r == key_action(key),
{
    match key.code {
        KeyCode::Char('q') => Some(Action::Quit),
        KeyCode::Char('j') | KeyCode::Up => Some(Action::NavigateUp),
        KeyCode::Char('k') | KeyCode::Down => Some(Action::NavigateDown),
        KeyCode::Enter => Some(Action::Select),
        KeyCode::Esc => Some(Action::Back),
        KeyCode::Char('c') if key.ctrl => Some(Action::Quit),
        _ => None,
    }
}

} // verus!
