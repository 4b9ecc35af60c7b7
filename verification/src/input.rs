use vstd::prelude::*;

use crate::snake::Direction;

verus! {

/// A key press, as far as the game tells keys apart.
#[derive(Clone, Copy, PartialEq, Eq, Structural, Debug)]
pub enum Key {
    Up,
    Down,
    Left,
    Right,
    Char(char),
    Other,
}

/// The key that ends the game.
pub const QUIT_KEY: char = 'q';

impl Key {
    /// The heading that an arrow key asks for; other keys ask for none.
    pub open spec fn heading(self) -> Option<Direction> {
        match self {
            Key::Up => Some(Direction::Up),
            Key::Down => Some(Direction::Down),
            Key::Left => Some(Direction::Left),
            Key::Right => Some(Direction::Right),
            _ => None,
        }
    }

    /// Whether this is the quit key.
    pub open spec fn is_quit(self) -> bool {
        self == Key::Char(QUIT_KEY)
    }

    pub fn to_heading(self) -> (heading: Option<Direction>)
        ensures
            heading == self.heading(),
    {
        match self {
            Key::Up => Some(Direction::Up),
            Key::Down => Some(Direction::Down),
            Key::Left => Some(Direction::Left),
            Key::Right => Some(Direction::Right),
            _ => None,
        }
    }

    pub fn quits(self) -> (quit: bool)
        ensures
            quit == self.is_quit(),
    {
        match self {
            Key::Char(c) => c == QUIT_KEY,
            _ => false,
        }
    }
}

} // verus!
