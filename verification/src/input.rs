//! The keys that move a token: the arrow keys and `W`, `A`, `S`, `D`.

use crate::board::Direction;
use vstd::prelude::*;

verus! {

/// A key as the game sees it: the eight that steer, and every other key
/// as one.
#[derive(Clone, Copy, Debug, PartialEq, Eq, Structural)]
pub enum Key {
    Left,
    Right,
    Up,
    Down,
    A,
    D,
    W,
    S,
    Other,
}

impl Key {
    /// The direction a key stands for: an arrow key for its own, `A` for
    /// left, `D` for right, `W` for up and `S` for down. No other key
    /// has one.
    pub open spec fn direction(self) -> Option<Direction> {
        match self {
            Key::Left | Key::A => Some(Direction::Left),
            Key::Right | Key::D => Some(Direction::Right),
            Key::Up | Key::W => Some(Direction::Up),
            Key::Down | Key::S => Some(Direction::Down),
            Key::Other => None,
        }
    }

    /// Gives the direction that the key stands for, if it stands for one.
    pub fn to_direction(&self) -> (dir: Option<Direction>)
        ensures
            dir == self.direction(),
    {
        match self {
            Key::Left | Key::A => Some(Direction::Left),
            Key::Right | Key::D => Some(Direction::Right),
            Key::Up | Key::W => Some(Direction::Up),
            Key::Down | Key::S => Some(Direction::Down),
            Key::Other => None,
        }
    }
}

} // verus!
