//! Keys, and what they ask of the board.

use vstd::prelude::*;

use crate::direction::Direction;

verus! {

/// A key press, as far as the game tells keys apart.
#[derive(Debug, Clone, Copy, PartialEq, Eq, Structural)]
pub enum Key {
    ArrowUp,
    ArrowDown,
    ArrowLeft,
    ArrowRight,
    Escape,
    /// A key that stands for a character.
    Char(char),
    /// Any other key.
    Other,
}

/// What a key press asks for.
#[derive(Debug, Clone, Copy, PartialEq, Eq, Structural)]
pub enum Command {
    /// Start or end a drag.
    Grab,
    /// Leave the game.
    Quit,
    /// Move the cursor one step.
    Move(Direction),
    /// The key has no meaning in the game.
    Nothing,
}

impl Key {
    /// The direction of an arrow key or of one of the letters `w`, `a`, `s`,
    /// `d`; no other key has one.
    pub open spec fn direction(self) -> Option<Direction> {
        match self {
            Key::ArrowUp | Key::Char('w') => Some(Direction::North),
            Key::ArrowDown | Key::Char('s') => Some(Direction::South),
            Key::ArrowRight | Key::Char('d') => Some(Direction::East),
            Key::ArrowLeft | Key::Char('a') => Some(Direction::West),
            _ => None,
        }
    }

    /// Space grabs, `q` and Escape quit, a key with a direction moves, and the
    /// other keys do nothing.
    pub open spec fn spec_command(self) -> Command {
        if self == Key::Char(' ') {
            Command::Grab
        } else if self == Key::Char('q') || self == Key::Escape {
            Command::Quit
        } else {
            match self.direction() {
                Some(dir) => Command::Move(dir),
                None => Command::Nothing,
            }
        }
    }

    /// What this key asks for.
    #[verifier::when_used_as_spec(spec_command)]
    pub fn command(self) -> (c: Command)
        ensures
            c == self.spec_command(),
    {
        match self {
            Key::Char(' ') => Command::Grab,
            Key::Char('q') | Key::Escape => Command::Quit,
            _ => match Direction::try_from(self) {
                Ok(dir) => Command::Move(dir),
                Err(_) => Command::Nothing,
            },
        }
    }
}

impl TryFrom<Key> for Direction {
    type Error = Key;

    /// The direction that `key` stands for. A key without one comes back as
    /// the error.
    fn try_from(key: Key) -> (r: Result<Direction, Key>) {
        match key {
            Key::ArrowUp | Key::Char('w') => Ok(Direction::North),
            Key::ArrowDown | Key::Char('s') => Ok(Direction::South),
            Key::ArrowRight | Key::Char('d') => Ok(Direction::East),
            Key::ArrowLeft | Key::Char('a') => Ok(Direction::West),
            _ => Err(key),
        }
    }
}

impl vstd::std_specs::convert::TryFromSpecImpl<Key> for Direction {
    open spec fn obeys_try_from_spec() -> bool {
        true
    }

    open spec fn try_from_spec(key: Key) -> Result<Direction, Key> {
        match key.direction() {
            Some(dir) => Ok(dir),
            None => Err(key),
        }
    }
}

} // verus!
