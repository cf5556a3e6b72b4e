use nos_reader::input::{handle_input, Action, Key};

#[test]
fn keys_are_bound_to_their_intents() {
    assert_eq!(handle_input(Key::Char('q')), Action::Quit);
    assert_eq!(handle_input(Key::Esc), Action::Quit);
    assert_eq!(handle_input(Key::Char('k')), Action::MoveUp);
    assert_eq!(handle_input(Key::Up), Action::MoveUp);
    assert_eq!(handle_input(Key::Char('j')), Action::MoveDown);
    assert_eq!(handle_input(Key::Down), Action::MoveDown);
    assert_eq!(handle_input(Key::Char('g')), Action::GotoTop);
    assert_eq!(handle_input(Key::Char('G')), Action::GotoBottom);
    assert_eq!(handle_input(Key::Char('b')), Action::GoBack);
    assert_eq!(handle_input(Key::Ctrl('f')), Action::PageDown);
    assert_eq!(handle_input(Key::PageDown), Action::PageDown);
    assert_eq!(handle_input(Key::Ctrl('b')), Action::PageUp);
    assert_eq!(handle_input(Key::PageUp), Action::PageUp);
    assert_eq!(handle_input(Key::Char('\n')), Action::EnterArticle);
    assert_eq!(handle_input(Key::Char('i')), Action::EnterArticle);
    assert_eq!(handle_input(Key::Char('/')), Action::Search);
    assert_eq!(handle_input(Key::Char('r')), Action::Reset);
    assert_eq!(handle_input(Key::Char(':')), Action::CommandMode);
}

#[test]
fn other_keys_are_bound_to_nothing() {
    assert_eq!(handle_input(Key::Char('x')), Action::NoOp);
    assert_eq!(handle_input(Key::Char('Q')), Action::NoOp);
    assert_eq!(handle_input(Key::Ctrl('q')), Action::NoOp);
    assert_eq!(handle_input(Key::Ctrl('j')), Action::NoOp);
    assert_eq!(handle_input(Key::Backspace), Action::NoOp);
    assert_eq!(handle_input(Key::Other), Action::NoOp);
}
