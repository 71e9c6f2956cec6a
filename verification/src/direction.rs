use vstd::prelude::*;

verus! {

/// A facing for the snake. `Still` stands for "not moving yet", the state a
/// fresh snake starts in.
#[derive(Clone, Copy, PartialEq, Eq, Structural, Debug)]
pub enum Direction {
    Still,
    Up,
    Down,
    Left,
    Right,
}

/// The 180-degree reverse of a direction; `Still` reverses to itself.
pub open spec fn opposite_of(d: Direction) -> Direction {
    match d {
        Direction::Up => Direction::Down,
        Direction::Down => Direction::Up,
        Direction::Left => Direction::Right,
        Direction::Right => Direction::Left,
        Direction::Still => Direction::Still,
    }
}

impl Direction {
    pub fn opposite(&self) -> (r: Self)
        ensures
            r == opposite_of(*self),
    {
        match self {
            Direction::Up => Direction::Down,
            Direction::Down => Direction::Up,
            Direction::Left => Direction::Right,
            Direction::Right => Direction::Left,
            Direction::Still => Direction::Still,
        }
    }
}

/// A key the platform layer can report. Only the four arrows steer the
/// snake; everything else is `Other`.
#[derive(Clone, Copy, PartialEq, Eq, Structural, Debug)]
pub enum Key {
    Up,
    Down,
    Left,
    Right,
    Other,
}

/// The direction a key asks for, if it is one of the four arrows.
pub open spec fn dir_of_key(k: Key) -> Option<Direction> {
    match k {
        Key::Up => Some(Direction::Up),
        Key::Down => Some(Direction::Down),
        Key::Left => Some(Direction::Left),
        Key::Right => Some(Direction::Right),
        Key::Other => None,
    }
}

impl Direction {
    pub fn from_key(k: Key) -> (r: Option<Direction>)
        ensures
            r == dir_of_key(k),
    {
        match k {
            Key::Up => Some(Direction::Up),
            Key::Down => Some(Direction::Down),
            Key::Left => Some(Direction::Left),
            Key::Right => Some(Direction::Right),
            Key::Other => None,
        }
    }
}

} // verus!
