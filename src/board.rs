//! Board geometry shared by the server and its clients.

use vstd::prelude::*;

verus! {

/// A position on the board, in tiles.
#[derive(Debug, Copy, Clone, Hash, PartialEq, Eq, Structural, PartialOrd, Ord)]
pub struct Coord {
    pub x: i32,
    pub y: i32,
}

/// The orientation in which a card is laid on the board.
#[derive(Debug, Copy, Clone, PartialEq, Eq, Structural)]
pub enum Rotation {
    Up,
    Right,
    Down,
    Left,
}

/// What occupies one square of the board.
#[derive(Debug, Copy, Clone, PartialEq, Eq, Structural)]
pub enum Tile {
    Empty,
    Wall,
    Tile { special: bool },
}

impl Rotation {
    /// The number of clockwise quarter turns from `Up` to this orientation.
    pub open spec fn quarter_turns(self) -> int {
        match self {
            Rotation::Up => 0,
            Rotation::Right => 1,
            Rotation::Down => 2,
            Rotation::Left => 3,
        }
    }

    /// The orientation one clockwise quarter turn further on.
    pub fn rotate_right(&self) -> (r: Rotation)
        ensures
            r.quarter_turns() == (self.quarter_turns() + 1) % 4,
    {
        match self {
            Rotation::Up => Rotation::Right,
            Rotation::Right => Rotation::Down,
            Rotation::Down => Rotation::Left,
            Rotation::Left => Rotation::Up,
        }
    }
}

} // verus!
