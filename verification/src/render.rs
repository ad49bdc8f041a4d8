//! Where things are painted: the shapes of a frame, in screen coordinates.
//!
//! The crate paints nothing. `draw` lists the shapes in the order in which
//! they are to be painted; colours, rounding and the food's picture are the
//! painter's business.

use vstd::prelude::*;
use crate::food::Food;
use crate::game::{Game, GameView};
use crate::snake::{Snake, SnakeView};
use crate::vector::Vector2;
use crate::{CELL_SIZE, OFFSET};

verus! {

/// Side length of an eye, in pixels.
pub const EYE_SIZE: i32 = 5;

/// A shape on the screen. `x` and `y` are the pixel coordinates of its upper
/// left corner.
#[derive(Clone, Copy, Debug, PartialEq, Eq, Structural)]
pub enum Shape {
    /// One cell of the snake's body: a square of `size` pixels.
    Segment { x: i64, y: i64, size: i64 },
    /// One eye on the snake's head: a square of `size` pixels.
    Eye { x: i64, y: i64, size: i64 },
    /// The picture of the food.
    Food { x: i64, y: i64 },
}

/// The pixel at which the cells with grid coordinate `v` begin.
pub open spec fn screen_coord(v: int) -> int {
    OFFSET + v * CELL_SIZE
}

/// The square that shows a cell of the snake's body.
pub open spec fn segment_shape(cell: Vector2) -> Shape {
    Shape::Segment {
        x: screen_coord(cell.x as int) as i64,
        y: screen_coord(cell.y as int) as i64,
        size: CELL_SIZE as i64,
    }
}

/// The square that shows an eye on the head at `cell`, `offset` pixels from
/// the cell's upper left corner.
pub open spec fn eye_shape(cell: Vector2, offset: (i32, i32)) -> Shape {
    Shape::Eye {
        x: (screen_coord(cell.x as int) + offset.0) as i64,
        y: (screen_coord(cell.y as int) + offset.1) as i64,
        size: EYE_SIZE as i64,
    }
}

/// The picture of food on `cell`.
pub open spec fn food_shape(cell: Vector2) -> Shape {
    Shape::Food { x: screen_coord(cell.x as int) as i64, y: screen_coord(cell.y as int) as i64 }
}

/// The shapes of the snake: the head, its two eyes, then the other cells of
/// the body in their order.
pub open spec fn snake_shapes(snake: SnakeView) -> Seq<Shape> {
    if snake.body.len() == 0 {
        Seq::empty()
    } else {
        Seq::new(
            snake.body.len() + 2,
            |i: int|
                if i == 0 {
                    segment_shape(snake.body[0])
                } else if i == 1 {
                    eye_shape(snake.body[0], snake.direction.eyes().0)
                } else if i == 2 {
                    eye_shape(snake.body[0], snake.direction.eyes().1)
                } else {
                    segment_shape(snake.body[i - 2])
                },
        )
    }
}

/// The shapes of the game: the food, then the snake over it.
pub open spec fn game_shapes(game: GameView) -> Seq<Shape> {
    seq![food_shape(game.food)] + snake_shapes(game.snake)
}

/// Computes the pixel at which the cells with grid coordinate `v` begin.
pub fn to_screen(v: i32) -> (r: i64)
    ensures
        r == screen_coord(v as int),
{
    OFFSET as i64 + v as i64 * CELL_SIZE as i64
}

impl Snake {
    /// Lists the shapes that show the snake, in painting order.
    pub fn draw(&self) -> (r: Vec<Shape>)
        ensures
            r@ == snake_shapes(self@),
    {
        let mut shapes: Vec<Shape> = Vec::new();
        let mut i: usize = 0;
        while i < self.body.len()
            invariant
                i <= self.body@.len(),
                shapes@.len() == (if i == 0 {
                    0int
                } else {
                    i + 2
                }),
                forall|k: int|
                    0 <= k < shapes@.len() ==> shapes@[k] == #[trigger] snake_shapes(self@)[k],
            decreases self.body@.len() - i,
        {
            let cell: Vector2 = self.body[i];
            let x: i64 = to_screen(cell.x);
            let y: i64 = to_screen(cell.y);
            shapes.push(Shape::Segment { x, y, size: CELL_SIZE as i64 });
            if i == 0 {
                let (first, second) = self.direction.eye_offset();
                shapes.push(
                    Shape::Eye {
                        x: x + first.0 as i64,
                        y: y + first.1 as i64,
                        size: EYE_SIZE as i64,
                    },
                );
                shapes.push(
                    Shape::Eye {
                        x: x + second.0 as i64,
                        y: y + second.1 as i64,
                        size: EYE_SIZE as i64,
                    },
                );
            }
            i += 1;
        }
        shapes
    }
}

impl Food {
    /// Says where the food's picture is to be painted.
    pub fn draw(&self) -> (r: Shape)
        ensures
            r == food_shape(self.pos),
    {
        Shape::Food { x: to_screen(self.pos.x), y: to_screen(self.pos.y) }
    }
}

impl Game {
    /// Lists the shapes of a frame, in painting order: the food, then the
    /// snake.
    pub fn draw(&self) -> (r: Vec<Shape>)
        ensures
            r@ == game_shapes(self@),
    {
        let mut shapes: Vec<Shape> = Vec::new();
        shapes.push(self.food.draw());
        let mut snake: Vec<Shape> = self.snake.draw();
        shapes.append(&mut snake);
        shapes
    }
}

/// On a field in order every shape of the snake lies within the field's
/// square on the screen.
pub proof fn law_shapes_on_field(game: GameView, i: int)
    requires
        game.inv(),
        0 <= i < game.snake.body.len(),
    ensures
        segment_shape(game.snake.body[i]) matches Shape::Segment { x, y, size } && {
            &&& OFFSET <= x
            &&& x + size <= OFFSET + crate::CELL_COUNT * CELL_SIZE
            &&& OFFSET <= y
            &&& y + size <= OFFSET + crate::CELL_COUNT * CELL_SIZE
        },
{
}

} // verus!
