//! Integer coordinate pairs.

use vstd::prelude::*;
use crate::CELL_COUNT;

verus! {

/// A pair of integer coordinates: a cell of the grid, or a step from one cell
/// to another.
#[derive(Clone, Copy, Debug, PartialEq, Eq, Structural)]
pub struct Vector2 {
    pub x: i32,
    pub y: i32,
}

impl Vector2 {
    /// The cell lies on the playing field.
    pub open spec fn in_grid(self) -> bool {
        0 <= self.x < CELL_COUNT && 0 <= self.y < CELL_COUNT
    }

    /// Moving by `delta` stays within the range of the coordinates' type.
    pub open spec fn can_step(self, delta: Vector2) -> bool {
        &&& i32::MIN <= self.x + delta.x <= i32::MAX
        &&& i32::MIN <= self.y + delta.y <= i32::MAX
    }

    /// The cell reached by moving by `delta`.
    pub open spec fn stepped(self, delta: Vector2) -> Vector2 {
        Vector2 { x: (self.x + delta.x) as i32, y: (self.y + delta.y) as i32 }
    }

    pub fn new(x: i32, y: i32) -> (r: Vector2)
        ensures
            r.x == x,
            r.y == y,
    {
        Vector2 { x, y }
    }

    /// Tells whether the cell lies on the playing field.
    pub fn is_in_grid(self) -> (r: bool)
        ensures
            r == self.in_grid(),
    {
        0 <= self.x && self.x < CELL_COUNT && 0 <= self.y && self.y < CELL_COUNT
    }

    /// Moves by `delta`, componentwise.
    pub fn step(self, delta: Vector2) -> (r: Vector2)
        requires
            self.can_step(delta),
        ensures
            r == self.stepped(delta),
            r.x == self.x + delta.x,
            r.y == self.y + delta.y,
    {
        Vector2 { x: self.x + delta.x, y: self.y + delta.y }
    }
}

} // verus!
