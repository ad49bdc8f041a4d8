//! The four directions in which the snake can travel.

use vstd::prelude::*;
use crate::vector::Vector2;

verus! {

/// A direction of travel along one of the two axes of the grid.
#[derive(Clone, Copy, Debug, PartialEq, Eq, Structural)]
pub enum Direction {
    Up,
    Down,
    Left,
    Right,
}

impl Direction {
    /// The step of one cell in this direction. The y axis points down.
    pub open spec fn delta(self) -> Vector2 {
        match self {
            Direction::Up => Vector2 { x: 0, y: -1i32 },
            Direction::Down => Vector2 { x: 0, y: 1 },
            Direction::Left => Vector2 { x: -1i32, y: 0 },
            Direction::Right => Vector2 { x: 1, y: 0 },
        }
    }

    /// The direction runs along the y axis.
    pub open spec fn vertical(self) -> bool {
        self is Up || self is Down
    }

    /// The direction runs along the x axis.
    pub open spec fn horizontal(self) -> bool {
        self is Left || self is Right
    }

    /// The two directions run along the same axis.
    pub open spec fn same_axis(self, other: Direction) -> bool {
        self.vertical() == other.vertical()
    }

    /// Where the two eyes sit on a head that looks in this direction: the
    /// offsets of their upper left corners from that of the head's cell, in
    /// pixels.
    pub open spec fn eyes(self) -> ((i32, i32), (i32, i32)) {
        match self {
            Direction::Left => ((5, 5), (5, 20)),
            Direction::Up => ((20, 5), (5, 5)),
            Direction::Right => ((20, 5), (20, 20)),
            Direction::Down => ((20, 20), (5, 20)),
        }
    }

    pub fn to_vector2(self) -> (r: Vector2)
        ensures
            r == self.delta(),
    {
        match self {
            Direction::Up => Vector2 { x: 0, y: -1 },
            Direction::Down => Vector2 { x: 0, y: 1 },
            Direction::Left => Vector2 { x: -1, y: 0 },
            Direction::Right => Vector2 { x: 1, y: 0 },
        }
    }

    pub fn is_vert(self) -> (r: bool)
        ensures
            r == self.vertical(),
            r == !self.horizontal(),
    {
        matches!(self, Direction::Down | Direction::Up)
    }

    pub fn is_horiz(self) -> (r: bool)
        ensures
            r == self.horizontal(),
            r == !self.vertical(),
    {
        matches!(self, Direction::Left | Direction::Right)
    }

    pub fn eye_offset(self) -> (r: ((i32, i32), (i32, i32)))
        ensures
            r == self.eyes(),
    {
        match self {
            Direction::Left => ((5, 5), (5, 20)),
            Direction::Up => ((20, 5), (5, 5)),
            Direction::Right => ((20, 5), (20, 20)),
            Direction::Down => ((20, 20), (5, 20)),
        }
    }
}

/// Every direction is a step of exactly one cell along exactly one axis, and
/// it is vertical or horizontal, never both.
pub proof fn law_unit_step(d: Direction)
    ensures
        d.vertical() != d.horizontal(),
        d.vertical() <==> d.delta().x == 0 && (d.delta().y == 1 || d.delta().y == -1),
        d.horizontal() <==> d.delta().y == 0 && (d.delta().x == 1 || d.delta().x == -1),
{
}

} // verus!
