//! The closed set of navigation, resize and quit intents, and the stateless
//! decoding of raw input events into them.

use vstd::prelude::*;
use crate::size::Size;

verus! {

/// One of the eight cursor movements.
#[derive(Clone, Copy, Debug, PartialEq, Eq, Structural)]
pub enum Direction {
    PageUp,
    PageDown,
    Home,
    End,
    Up,
    Down,
    Left,
    Right,
}

/// What a decoded input event asks of the viewport.
#[derive(Clone, Copy, Debug, PartialEq, Eq, Structural)]
pub enum EditorCommand {
    Move(Direction),
    Resize(Size),
    Quit,
}

/// The key named by a key press, as far as decoding reads it.
#[derive(Clone, Copy, Debug, PartialEq, Eq, Structural)]
pub enum KeyCode {
    Up,
    Down,
    Left,
    Right,
    PageUp,
    PageDown,
    Home,
    End,
    Char(char),
    Other,
}

/// A raw input event, reduced to the plain values that decoding reads: a key
/// press with whether Control (and Control alone) was held, a terminal
/// resize, or anything else.
#[derive(Clone, Copy, Debug, PartialEq, Eq, Structural)]
pub enum InputEvent {
    Key { code: KeyCode, ctrl_only: bool },
    Resize { width: u16, height: u16 },
    Other,
}

/// Why an input event decoded to no command.
#[derive(Clone, Copy, Debug, PartialEq, Eq, Structural)]
pub enum DecodeError {
    /// A key press that names no command.
    UnsupportedKey,
    /// An event that is neither a key press nor a resize.
    UnsupportedEvent,
}

/// The command a raw event stands for: Control-q quits, the eight navigation
/// keys move (whatever modifiers are held), a resize carries the new size,
/// and everything else is rejected.
pub open spec fn decoded(event: InputEvent) -> Result<EditorCommand, DecodeError> {
    match event {
        InputEvent::Key { code, ctrl_only } => match code {
            KeyCode::Char(c) => if c == 'q' && ctrl_only {
                Ok(EditorCommand::Quit)
            } else {
                Err(DecodeError::UnsupportedKey)
            },
            KeyCode::Up => Ok(EditorCommand::Move(Direction::Up)),
            KeyCode::Down => Ok(EditorCommand::Move(Direction::Down)),
            KeyCode::Left => Ok(EditorCommand::Move(Direction::Left)),
            KeyCode::Right => Ok(EditorCommand::Move(Direction::Right)),
            KeyCode::PageUp => Ok(EditorCommand::Move(Direction::PageUp)),
            KeyCode::PageDown => Ok(EditorCommand::Move(Direction::PageDown)),
            KeyCode::Home => Ok(EditorCommand::Move(Direction::Home)),
            KeyCode::End => Ok(EditorCommand::Move(Direction::End)),
            KeyCode::Other => Err(DecodeError::UnsupportedKey),
        },
        InputEvent::Resize { width, height } => Ok(
            EditorCommand::Resize(Size { width: width as usize, height: height as usize }),
        ),
        InputEvent::Other => Err(DecodeError::UnsupportedEvent),
    }
}

impl EditorCommand {
    /// Stateless decoding of one raw input event.
    pub fn try_from_event(event: InputEvent) -> (r: Result<EditorCommand, DecodeError>)
        ensures
            r == decoded(event),
    {
        match event {
            InputEvent::Key { code, ctrl_only } => match code {
                KeyCode::Char(c) => if c == 'q' && ctrl_only {
                    Ok(EditorCommand::Quit)
                } else {
                    Err(DecodeError::UnsupportedKey)
                },
                KeyCode::Up => Ok(EditorCommand::Move(Direction::Up)),
                KeyCode::Down => Ok(EditorCommand::Move(Direction::Down)),
                KeyCode::Left => Ok(EditorCommand::Move(Direction::Left)),
                KeyCode::Right => Ok(EditorCommand::Move(Direction::Right)),
                KeyCode::PageUp => Ok(EditorCommand::Move(Direction::PageUp)),
                KeyCode::PageDown => Ok(EditorCommand::Move(Direction::PageDown)),
                KeyCode::Home => Ok(EditorCommand::Move(Direction::Home)),
                KeyCode::End => Ok(EditorCommand::Move(Direction::End)),
                KeyCode::Other => Err(DecodeError::UnsupportedKey),
            },
            InputEvent::Resize { width, height } => Ok(
                EditorCommand::Resize(Size { width: width as usize, height: height as usize }),
            ),
            InputEvent::Other => Err(DecodeError::UnsupportedEvent),
        }
    }
}

impl DecodeError {
    /// A short description of the rejection, for the controller to report.
    pub fn describe(&self) -> (r: String)
        ensures
            self is UnsupportedKey ==> r@ == "key code not supported"@,
            self is UnsupportedEvent ==> r@ == "event not supported"@,
    {
        match self {
            DecodeError::UnsupportedKey => "key code not supported".to_owned(),
            DecodeError::UnsupportedEvent => "event not supported".to_owned(),
        }
    }
}

} // verus!
