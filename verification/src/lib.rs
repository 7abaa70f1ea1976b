//! Core logic of a terminal tic-tac-toe match: an N x N board of marks,
//! cursor navigation, win/draw detection, and a random move generator for
//! the computer opponent. Terminal rendering and raw keyboard input live
//! outside this crate; everything here is pure state manipulation with
//! verified contracts.

pub mod ai;
pub mod game;
pub mod grid;

pub use ai::AI;
pub use game::TicTacToe;
pub use grid::Grid;

use vstd::prelude::*;

verus! {

/// The side length N of an N x N board.
#[derive(Debug, Clone, Copy, PartialEq, Eq, Structural)]
pub struct Side(pub u16);

impl Side {
    /// A meaningful board has at least one cell, and every coordinate in
    /// [0, N) must be representable as an `i16`.
    pub open spec fn wf(self) -> bool {
        1 <= self.0 <= i16::MAX
    }
}

/// A position on the board (or on the screen), zero-indexed.
/// The sign convention has y increasing downward, as screen rows do.
#[derive(Debug, Clone, Copy, PartialEq, Eq, Hash, Structural)]
pub struct Coordinates {
    pub x: i16,
    pub y: i16,
}

impl core::ops::Add<Coordinates> for Coordinates {
    type Output = Coordinates;

    /// Vector sum, used to apply a direction's unit delta to the cursor.
    fn add(self, rhs: Coordinates) -> Coordinates {
        Coordinates { x: self.x + rhs.x, y: self.y + rhs.y }
    }
}

impl vstd::std_specs::ops::AddSpecImpl<Coordinates> for Coordinates {
    open spec fn obeys_add_spec() -> bool {
        true
    }

    open spec fn add_req(self, rhs: Coordinates) -> bool {
        &&& i16::MIN <= self.x + rhs.x <= i16::MAX
        &&& i16::MIN <= self.y + rhs.y <= i16::MAX
    }

    open spec fn add_spec(self, rhs: Coordinates) -> Coordinates {
        Coordinates { x: (self.x + rhs.x) as i16, y: (self.y + rhs.y) as i16 }
    }
}

/// The two parties of a match: the human plays Cross, the computer Zero.
#[derive(Debug, Clone, Copy, PartialEq, Eq, Structural)]
pub enum Player {
    Zero,
    Cross,
}

impl Player {
    /// The fixed glyph drawn for this player's marks.
    pub fn to_char(&self) -> (c: char)
        ensures
            c == (match self {
                Player::Zero => '0',
                Player::Cross => 'X',
            }),
    {
        match self {
            Self::Zero => '0',
            Self::Cross => 'X',
        }
    }
}

/// The domain errors of a match. Invalid moves are expected and
/// recoverable; an out-of-bounds mark is a defensive check that cursor
/// clamping should make unreachable; selecting an unimplemented strategy
/// reports the incomplete configuration instead of masking it.
#[derive(Debug, Clone, Copy, PartialEq, Eq, Structural)]
pub enum GameError {
    AlreadyMarked,
    OutOfBounds,
    NotImplemented,
}

/// The abstracted result of decoding one keypress.
pub enum InputEvent {
    Direction(Direction),
    Mark,
    Quit,
}

/// A keypress, reduced to what the game cares about. The terminal
/// front-end translates its raw key events into this before asking the
/// game what the key means.
pub enum KeyInput {
    Enter,
    Esc,
    Character(char),
    Other,
}

/// Translates one keypress into an input event: Enter marks, Esc quits,
/// the w/s/a/d letters move, and every other key is discarded.
pub fn decode_key(key: KeyInput) -> (r: Option<InputEvent>)
    ensures
        match key {
            KeyInput::Enter => r matches Some(InputEvent::Mark),
            KeyInput::Esc => r matches Some(InputEvent::Quit),
            KeyInput::Character(c) => {
                &&& (c == 'w' ==> r matches Some(InputEvent::Direction(Direction::Up)))
                &&& (c == 's' ==> r matches Some(InputEvent::Direction(Direction::Down)))
                &&& (c == 'a' ==> r matches Some(InputEvent::Direction(Direction::Left)))
                &&& (c == 'd' ==> r matches Some(InputEvent::Direction(Direction::Right)))
                &&& (c != 'w' && c != 's' && c != 'a' && c != 'd') ==> r is None
            },
            KeyInput::Other => r is None,
        },
{
    match key {
        KeyInput::Enter => Some(InputEvent::Mark),
        KeyInput::Esc => Some(InputEvent::Quit),
        KeyInput::Character(c) => {
            if c == 'w' {
                Some(InputEvent::Direction(Direction::Up))
            } else if c == 's' {
                Some(InputEvent::Direction(Direction::Down))
            } else if c == 'a' {
                Some(InputEvent::Direction(Direction::Left))
            } else if c == 'd' {
                Some(InputEvent::Direction(Direction::Right))
            } else {
                None
            }
        },
        KeyInput::Other => None,
    }
}

/// A cursor movement. Diagonal movement is a possible future extension.
#[derive(Debug, Clone, Copy, PartialEq, Eq, Structural)]
#[non_exhaustive]
pub enum Direction {
    Up,
    Down,
    Left,
    Right,
}

impl Direction {
    /// The unit delta this direction adds to the cursor position.
    pub open spec fn delta(self) -> Coordinates {
        match self {
            Direction::Up => Coordinates { x: 0, y: -1i16 },
            Direction::Down => Coordinates { x: 0, y: 1 },
            Direction::Left => Coordinates { x: -1i16, y: 0 },
            Direction::Right => Coordinates { x: 1, y: 0 },
        }
    }

    pub fn get_relative_coords(&self) -> (c: Coordinates)
        ensures
            c == self.delta(),
    {
        match &self {
            Direction::Up => Coordinates { x: 0, y: -1i16 },
            Direction::Down => Coordinates { x: 0, y: 1 },
            Direction::Left => Coordinates { x: -1i16, y: 0 },
            Direction::Right => Coordinates { x: 1, y: 0 },
        }
    }
}

} // verus!
