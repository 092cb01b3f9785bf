//! The commands that the viewer acts on, and the input events that they are
//! read from.

use crate::terminal::Size;
use vstd::prelude::*;

verus! {

/// Where a move takes the cursor.
#[derive(Debug, Clone, Copy, PartialEq, Eq, Structural)]
pub enum Direction {
    PageUp,
    PageDown,
    Home,
    End,
    Up,
    Left,
    Right,
    Down,
}

/// What the viewer can be told to do.
#[derive(Debug, Clone, Copy, PartialEq, Eq, Structural)]
pub enum EditorCommand {
    Move(Direction),
    Resize(Size),
    Quit,
}

/// A key of the keyboard, as far as the viewer tells keys apart.
#[derive(Debug, Clone, Copy, PartialEq, Eq, Structural)]
pub enum Key {
    Char(char),
    Up,
    Down,
    Left,
    Right,
    PageUp,
    PageDown,
    Home,
    End,
    Other,
}

/// The modifier keys held down with a key.
#[derive(Debug, Clone, Copy, PartialEq, Eq, Structural)]
pub struct Modifiers {
    pub shift: bool,
    pub control: bool,
    pub alt: bool,
    /// Any modifier other than the three above.
    pub other: bool,
}

impl Modifiers {
    /// Control is held down and nothing else.
    pub open spec fn only_control(self) -> bool {
        self.control && !self.shift && !self.alt && !self.other
    }

    /// Whether control is held down and nothing else.
    pub fn is_only_control(&self) -> (only: bool)
        ensures
            only == self.only_control(),
    {
        self.control && !self.shift && !self.alt && !self.other
    }
}

/// One key going down or up.
#[derive(Debug, Clone, Copy, PartialEq, Eq, Structural)]
pub struct KeyPress {
    pub key: Key,
    pub modifiers: Modifiers,
    /// The key went down; false where it was let go or repeats.
    pub pressed: bool,
}

/// What the terminal reports.
#[derive(Debug, Clone, Copy, PartialEq, Eq, Structural)]
pub enum InputEvent {
    Key(KeyPress),
    /// The terminal now has this many columns and rows.
    Resize(u16, u16),
    Other,
}

/// Why an input event gives no command.
#[derive(Debug, Clone, Copy, PartialEq, Eq, Structural)]
pub enum Unsupported {
    KeyCode,
    Event,
}

/// The direction that a key moves in, if it is a navigation key.
pub open spec fn direction_of(key: Key) -> Option<Direction> {
    match key {
        Key::Up => Some(Direction::Up),
        Key::Down => Some(Direction::Down),
        Key::Left => Some(Direction::Left),
        Key::Right => Some(Direction::Right),
        Key::PageDown => Some(Direction::PageDown),
        Key::PageUp => Some(Direction::PageUp),
        Key::End => Some(Direction::End),
        Key::Home => Some(Direction::Home),
        _ => None,
    }
}

/// The command that an input event stands for: control and `q` quits, a
/// navigation key moves whatever is held down with it, and a resize
/// resizes. Nothing else is a command.
pub open spec fn command_of(event: InputEvent) -> Result<EditorCommand, Unsupported> {
    match event {
        InputEvent::Key(press) => if press.key == Key::Char('q')
            && press.modifiers.only_control() {
            Ok(EditorCommand::Quit)
        } else {
            match direction_of(press.key) {
                Some(direction) => Ok(EditorCommand::Move(direction)),
                None => Err(Unsupported::KeyCode),
            }
        },
        InputEvent::Resize(width, height) => Ok(
            EditorCommand::Resize(Size { width: width as usize, height: height as usize }),
        ),
        InputEvent::Other => Err(Unsupported::Event),
    }
}

impl Key {
    /// The direction that the key moves in, if it is a navigation key.
    pub fn direction(&self) -> (direction: Option<Direction>)
        ensures
            direction == direction_of(*self),
    {
        match self {
            Key::Up => Some(Direction::Up),
            Key::Down => Some(Direction::Down),
            Key::Left => Some(Direction::Left),
            Key::Right => Some(Direction::Right),
            Key::PageDown => Some(Direction::PageDown),
            Key::PageUp => Some(Direction::PageUp),
            Key::End => Some(Direction::End),
            Key::Home => Some(Direction::Home),
            _ => None,
        }
    }
}

impl EditorCommand {
    /// Reads a command from an input event.
    pub fn try_from(event: InputEvent) -> (command: Result<EditorCommand, Unsupported>)
        ensures
            command == command_of(event),
    {
        match event {
            InputEvent::Key(press) => {
                if press.modifiers.is_only_control() {
                    if let Key::Char(c) = press.key {
                        if c == 'q' {
                            return Ok(EditorCommand::Quit);
                        }
                    }
                }
                match press.key.direction() {
                    Some(direction) => Ok(EditorCommand::Move(direction)),
                    None => Err(Unsupported::KeyCode),
                }
            },
            InputEvent::Resize(width, height) => Ok(
                EditorCommand::Resize(Size { width: width as usize, height: height as usize }),
            ),
            InputEvent::Other => Err(Unsupported::Event),
        }
    }
}

} // verus!
