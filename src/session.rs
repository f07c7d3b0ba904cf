use vstd::prelude::*;
use crate::browser::{App, Nav, navigate};

verus! {

/// The legend shown in the footer under the table.
pub const INFO_TEXT: &'static str = "(Q) quit | (K) move up | (J) move down | (Enter) select";

/// A key, as far as the browser tells keys apart.
#[derive(Clone, Copy, Debug, PartialEq, Eq, Structural)]
pub enum Key {
    Char(char),
    Esc,
    Up,
    Down,
    Other,
}

/// One input event read from the terminal.
#[derive(Clone, Copy, Debug, PartialEq, Eq, Structural)]
pub enum InputEvent {
    /// A key was pressed.
    Press(Key),
    /// A key release or repeat, a mouse or resize event, and the like.
    Other,
}

/// What an input event asks of the browser.
#[derive(Clone, Copy, Debug, PartialEq, Eq, Structural)]
pub enum Command {
    Quit,
    Move(Nav),
    Ignore,
}

/// Whether the render loop goes on.
#[derive(Clone, Copy, Debug, PartialEq, Eq, Structural)]
pub enum LoopState {
    Running,
    Stopped,
}

/// `q` or Escape quit, `j` or Down select the next row, `k` or Up the
/// previous one; everything else is ignored.
pub open spec fn command_of(event: InputEvent) -> Command {
    match event {
        InputEvent::Press(Key::Char('q')) | InputEvent::Press(Key::Esc) => Command::Quit,
        InputEvent::Press(Key::Char('j')) | InputEvent::Press(Key::Down) => Command::Move(
            Nav::Next,
        ),
        InputEvent::Press(Key::Char('k')) | InputEvent::Press(Key::Up) => Command::Move(
            Nav::Previous,
        ),
        _ => Command::Ignore,
    }
}

/// Classifies an input event.
pub fn command_for(event: InputEvent) -> (r: Command)
    ensures
        r == command_of(event),
{
    match event {
        InputEvent::Press(Key::Char('q')) | InputEvent::Press(Key::Esc) => Command::Quit,
        InputEvent::Press(Key::Char('j')) | InputEvent::Press(Key::Down) => Command::Move(
            Nav::Next,
        ),
        InputEvent::Press(Key::Char('k')) | InputEvent::Press(Key::Up) => Command::Move(
            Nav::Previous,
        ),
        _ => Command::Ignore,
    }
}

/// One turn of the render loop after the table was drawn: applies `event`
/// to the browser and says whether the loop goes on.
pub fn handle_event(app: &mut App, event: InputEvent) -> (r: LoopState)
    requires
        old(app).wf(),
    ensures
        final(app).wf(),
        final(app).packages() == old(app).packages(),
        r == (if command_of(event) == Command::Quit {
            LoopState::Stopped
        } else {
            LoopState::Running
        }),
        final(app).cursor() == match command_of(event) {
            Command::Move(op) => navigate(old(app).packages().len(), old(app).cursor(), op),
            _ => old(app).cursor(),
        },
{
    match command_for(event) {
        Command::Quit => LoopState::Stopped,
        Command::Move(op) => {
            app.apply(op);
            LoopState::Running
        },
        Command::Ignore => LoopState::Running,
    }
}

} // verus!
