//! Grid positions.

use crate::rng::gen_range_i32;
use vstd::prelude::*;

verus! {

/// A position on the unbounded integer plane: the mathematical value of a
/// [`Coordinate`].
pub struct Cell {
    pub x: int,
    pub y: int,
}

impl Cell {
    /// Whether the cell lies on a grid of `width` columns and `height` rows.
    pub open spec fn within(self, width: int, height: int) -> bool {
        0 <= self.x < width && 0 <= self.y < height
    }
}

/// A position given by column `x` and row `y`.
#[derive(Debug, Clone, Copy, PartialEq, Eq, Structural)]
pub struct Coordinate {
    pub x: i32,
    pub y: i32,
}

impl View for Coordinate {
    type V = Cell;

    open spec fn view(&self) -> Cell {
        Cell { x: self.x as int, y: self.y as int }
    }
}

impl Coordinate {
    /// The coordinate at column `x` and row `y`.
    pub fn new(x: i32, y: i32) -> (c: Coordinate)
        ensures
            c.x == x,
            c.y == y,
    {
        Coordinate { x, y }
    }

    /// A coordinate drawn at random from the grid of `max_x` columns and
    /// `max_y` rows. Both must be positive: there is nothing to draw from an
    /// empty grid.
    ///
    /// The result lies on the grid; which of its cells comes out is up to the
    /// random generator.
    pub fn random(max_x: i32, max_y: i32) -> (c: Coordinate)
        requires
            0 < max_x,
            0 < max_y,
        ensures
            c@.within(max_x as int, max_y as int),
    {
        let mut rng = rand::thread_rng();
        let x: i32 = gen_range_i32(&mut rng, 0, max_x);
        let y: i32 = gen_range_i32(&mut rng, 0, max_y);
        Coordinate::new(x, y)
    }
}

} // verus!
