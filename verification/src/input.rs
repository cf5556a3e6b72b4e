//! Keys and the intents they are bound to.

use vstd::prelude::*;

verus! {

/// A key press, as far as the bindings tell keys apart.
#[derive(Clone, Copy, Debug, PartialEq, Eq, Structural)]
pub enum Key {
    /// A plain character; Enter arrives as `'\n'`.
    Char(char),
    /// A character typed with Ctrl held down.
    Ctrl(char),
    Up,
    Down,
    PageUp,
    PageDown,
    Esc,
    Backspace,
    /// Any key without a binding of its own.
    Other,
}

/// What the user asks for with a key press.
#[derive(Clone, Copy, Debug, PartialEq, Eq, Structural)]
pub enum Action {
    Quit,
    GoBack,
    MoveUp,
    MoveDown,
    GotoTop,
    GotoBottom,
    PageUp,
    PageDown,
    EnterArticle,
    Search,
    Reset,
    CommandMode,
    NoOp,
}

/// The key bindings.
pub open spec fn binding(key: Key) -> Action {
    match key {
        Key::Char(c) => if c == 'q' {
            Action::Quit
        } else if c == 'k' {
            Action::MoveUp
        } else if c == 'j' {
            Action::MoveDown
        } else if c == 'g' {
            Action::GotoTop
        } else if c == 'G' {
            Action::GotoBottom
        } else if c == 'b' {
            Action::GoBack
        } else if c == '\n' || c == 'i' {
            Action::EnterArticle
        } else if c == '/' {
            Action::Search
        } else if c == 'r' {
            Action::Reset
        } else if c == ':' {
            Action::CommandMode
        } else {
            Action::NoOp
        },
        Key::Ctrl(c) => if c == 'f' {
            Action::PageDown
        } else if c == 'b' {
            Action::PageUp
        } else {
            Action::NoOp
        },
        Key::Esc => Action::Quit,
        Key::Up => Action::MoveUp,
        Key::Down => Action::MoveDown,
        Key::PageDown => Action::PageDown,
        Key::PageUp => Action::PageUp,
        Key::Backspace => Action::NoOp,
        Key::Other => Action::NoOp,
    }
}

/// Maps a key press to the intent it is bound to.
pub fn handle_input(key: Key) -> (action: Action)
    ensures
        action == binding(key),
{
    match key {
        Key::Char('q') | Key::Esc => Action::Quit,
        Key::Char('k') | Key::Up => Action::MoveUp,
        Key::Char('j') | Key::Down => Action::MoveDown,
        Key::Char('g') => Action::GotoTop,
        Key::Char('G') => Action::GotoBottom,
        Key::Char('b') => Action::GoBack,
        Key::Ctrl('f') | Key::PageDown => Action::PageDown,
        Key::Ctrl('b') | Key::PageUp => Action::PageUp,
        Key::Char('\n') | Key::Char('i') => Action::EnterArticle,
        Key::Char('/') => Action::Search,
        Key::Char('r') => Action::Reset,
        Key::Char(':') => Action::CommandMode,
        _ => Action::NoOp,
    }
}

} // verus!
