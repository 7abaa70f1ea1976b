//! The grid defines the board's dimension and the layout rule that places
//! each board cell on the screen. Actually drawing the grid is left to the
//! terminal front-end; the mapping itself is pure.

use vstd::prelude::*;

use crate::{Coordinates, Side};

verus! {

/// The square playing field: an N x N arrangement of boxes.
#[derive(Debug, Clone, Copy, PartialEq, Eq, Structural)]
pub struct Grid {
    pub side: Side,
}

impl Grid {
    pub fn from(side: Side) -> (g: Self)
        ensures
            g.side == side,
    {
        Self { side: side }
    }

    /// Grid coordinates locate a box in the grid, whereas screen coordinates
    /// are terminal cells. Each box is four columns wide (three for the mark
    /// area plus one boundary), and the mark sits one column in; rows map
    /// one to one.
    pub fn grid_coords_to_screen_coords(position: &Coordinates) -> (screen: Coordinates)
        requires
            4 * position.x + 1 <= i16::MAX,
            i16::MIN <= 4 * position.x,
        ensures
            screen.x == 4 * position.x + 1,
            screen.y == position.y,
    {
        Coordinates { x: position.x * 4 + 1, y: position.y }
    }
}

} // verus!
