use helix_lsp::browser::{App, Nav};
use helix_lsp::registry::Package;
use helix_lsp::session::{command_for, handle_event, Command, InputEvent, Key, LoopState, INFO_TEXT};

fn app3() -> App {
    App::new(vec![
        Package::new("a".to_string(), "".to_string()),
        Package::new("b".to_string(), "".to_string()),
        Package::new("c".to_string(), "".to_string()),
    ])
}

#[test]
fn keys_map_to_commands() {
    assert_eq!(command_for(InputEvent::Press(Key::Char('q'))), Command::Quit);
    assert_eq!(command_for(InputEvent::Press(Key::Esc)), Command::Quit);
    assert_eq!(command_for(InputEvent::Press(Key::Char('j'))), Command::Move(Nav::Next));
    assert_eq!(command_for(InputEvent::Press(Key::Down)), Command::Move(Nav::Next));
    assert_eq!(command_for(InputEvent::Press(Key::Char('k'))), Command::Move(Nav::Previous));
    assert_eq!(command_for(InputEvent::Press(Key::Up)), Command::Move(Nav::Previous));
    assert_eq!(command_for(InputEvent::Press(Key::Char('Q'))), Command::Ignore);
    assert_eq!(command_for(InputEvent::Press(Key::Other)), Command::Ignore);
    assert_eq!(command_for(InputEvent::Other), Command::Ignore);
}

#[test]
fn quit_stops_and_keeps_cursor() {
    let mut app = app3();
    app.next();
    assert_eq!(handle_event(&mut app, InputEvent::Press(Key::Char('q'))), LoopState::Stopped);
    assert_eq!(app.selected(), Some(1));
    assert_eq!(handle_event(&mut app, InputEvent::Press(Key::Esc)), LoopState::Stopped);
    assert_eq!(app.selected(), Some(1));
}

#[test]
fn other_events_are_ignored() {
    let mut app = app3();
    assert_eq!(handle_event(&mut app, InputEvent::Other), LoopState::Running);
    assert_eq!(handle_event(&mut app, InputEvent::Press(Key::Char('x'))), LoopState::Running);
    assert_eq!(app.selected(), Some(0));
}

#[test]
fn vim_keys_move() {
    let mut app = app3();
    handle_event(&mut app, InputEvent::Press(Key::Char('k')));
    assert_eq!(app.selected(), Some(2));
    handle_event(&mut app, InputEvent::Press(Key::Char('j')));
    assert_eq!(app.selected(), Some(0));
}

#[test]
fn footer_legend() {
    assert_eq!(INFO_TEXT, "(Q) quit | (K) move up | (J) move down | (Enter) select");
}
