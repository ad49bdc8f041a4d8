//! Food, and the choice of a free cell for it among cells drawn at random.
//!
//! The crate draws no random numbers itself. A caller draws pairs of
//! coordinates, each from `0` to `CELL_COUNT - 1`, and hands them in; the
//! first pair that names a cell on the field and off the snake is taken.

use std::collections::VecDeque;
use vstd::prelude::*;
use crate::snake::body_contains;
use crate::vector::Vector2;

verus! {

/// None of the cells that were drawn is on the field and off the snake.
#[derive(Clone, Copy, Debug, PartialEq, Eq, Structural)]
pub struct NoFreeCell;

/// The cell that a drawn pair of coordinates names.
pub open spec fn drawn_cell(draw: (i32, i32)) -> Vector2 {
    Vector2 { x: draw.0, y: draw.1 }
}

/// Food may be put on `cell`: it lies on the field, and no part of `body`
/// lies on it.
pub open spec fn is_free(cell: Vector2, body: Seq<Vector2>) -> bool {
    cell.in_grid() && !body.contains(cell)
}

/// The first free cell among `draws[from..]`, if there is one.
pub open spec fn first_free_from(draws: Seq<(i32, i32)>, body: Seq<Vector2>, from: int) -> Option<
    Vector2,
>
    decreases draws.len() - from,
{
    if from < 0 || from >= draws.len() {
        None
    } else if is_free(drawn_cell(draws[from]), body) {
        Some(drawn_cell(draws[from]))
    } else {
        first_free_from(draws, body, from + 1)
    }
}

/// The first free cell among `draws`, if there is one.
pub open spec fn first_free(draws: Seq<(i32, i32)>, body: Seq<Vector2>) -> Option<Vector2> {
    first_free_from(draws, body, 0)
}

/// What `first_free_from` picks is the cell of the earliest draw, from `from`
/// on, that is free; it picks none exactly if no such draw is free.
pub proof fn lemma_first_free_from(draws: Seq<(i32, i32)>, body: Seq<Vector2>, from: int)
    requires
        0 <= from,
    ensures
        match first_free_from(draws, body, from) {
            Some(cell) => exists|i: int|
                {
                    &&& from <= i < draws.len()
                    &&& cell == drawn_cell(#[trigger] draws[i])
                    &&& is_free(cell, body)
                    &&& forall|j: int|
                        from <= j < i ==> !is_free(drawn_cell(#[trigger] draws[j]), body)
                },
            None => forall|i: int|
                from <= i < draws.len() ==> !is_free(drawn_cell(#[trigger] draws[i]), body),
        },
    decreases draws.len() - from,
{
    if from < draws.len() {
        if !is_free(drawn_cell(draws[from]), body) {
            lemma_first_free_from(draws, body, from + 1);
            match first_free_from(draws, body, from + 1) {
                Some(cell) => {
                    let i = choose|i: int|
                        {
                            &&& from + 1 <= i < draws.len()
                            &&& cell == drawn_cell(#[trigger] draws[i])
                            &&& is_free(cell, body)
                            &&& forall|j: int|
                                from + 1 <= j < i ==> !is_free(
                                    drawn_cell(#[trigger] draws[j]),
                                    body,
                                )
                        };
                    assert(cell == drawn_cell(draws[i]));
                },
                None => {},
            }
        }
    }
}

/// What `first_free` picks is the cell of the earliest draw that is free; it
/// picks none exactly if no draw is free.
pub proof fn lemma_first_free(draws: Seq<(i32, i32)>, body: Seq<Vector2>)
    ensures
        match first_free(draws, body) {
            Some(cell) => exists|i: int|
                {
                    &&& 0 <= i < draws.len()
                    &&& cell == drawn_cell(#[trigger] draws[i])
                    &&& is_free(cell, body)
                    &&& forall|j: int|
                        0 <= j < i ==> !is_free(drawn_cell(#[trigger] draws[j]), body)
                },
            None => forall|i: int|
                0 <= i < draws.len() ==> !is_free(drawn_cell(#[trigger] draws[i]), body),
        },
{
    lemma_first_free_from(draws, body, 0);
}

#[derive(Debug)]
pub struct Food {
    pub pos: Vector2,
}

impl Food {
    /// Places food on the first free cell among `draws`.
    pub fn new(draws: &Vec<(i32, i32)>, snake_body: &VecDeque<Vector2>) -> (r: Result<
        Food,
        NoFreeCell,
    >)
        ensures
            match first_free(draws@, snake_body@) {
                Some(cell) => r matches Ok(food) && food.pos == cell,
                None => r == Err::<Food, NoFreeCell>(NoFreeCell),
            },
            r matches Ok(food) ==> is_free(food.pos, snake_body@),
    {
        match Food::generate_random_pos(draws, snake_body) {
            Ok(pos) => Ok(Food { pos }),
            Err(e) => Err(e),
        }
    }

    /// Makes a cell of two coordinates that were drawn at random, and
    /// refuses them if the cell is not on the field.
    pub fn generate_random_cell(x: i32, y: i32) -> (r: Option<Vector2>)
        ensures
            r == if (Vector2 { x, y }).in_grid() {
                Some(Vector2 { x, y })
            } else {
                None
            },
    {
        let cell = Vector2 { x, y };
        if cell.is_in_grid() {
            Some(cell)
        } else {
            None
        }
    }

    /// Walks through the drawn pairs in order and returns the first cell
    /// that is on the field and off the snake.
    pub fn generate_random_pos(draws: &Vec<(i32, i32)>, snake_body: &VecDeque<Vector2>) -> (r:
        Result<Vector2, NoFreeCell>)
        ensures
            match first_free(draws@, snake_body@) {
                Some(cell) => r == Ok::<Vector2, NoFreeCell>(cell),
                None => r == Err::<Vector2, NoFreeCell>(NoFreeCell),
            },
            r matches Ok(cell) ==> is_free(cell, snake_body@),
            r is Err ==> forall|i: int|
                0 <= i < draws@.len() ==> !is_free(drawn_cell(#[trigger] draws@[i]), snake_body@),
    {
        proof {
            lemma_first_free(draws@, snake_body@);
        }
        let mut i: usize = 0;
        while i < draws.len()
            invariant
                i <= draws@.len(),
                first_free(draws@, snake_body@) == first_free_from(draws@, snake_body@, i as int),
            decreases draws@.len() - i,
        {
            let (x, y) = draws[i];
            if let Some(cell) = Food::generate_random_cell(x, y) {
                if !body_contains(snake_body, cell) {
                    return Ok(cell);
                }
            }
            i += 1;
        }
        Err(NoFreeCell)
    }
}

} // verus!
