//! What holds of the game in every state that play can reach.
//!
//! The laws are stated over `SnakeView` and `GameView`, the states that the
//! contracts of the executable functions speak of, and over the rules that
//! are their spec functions.

use vstd::prelude::*;
use vstd::set_lib::{lemma_int_range, lemma_len_subset, set_int_range};
use crate::direction::Direction;
use crate::food::{is_free, lemma_first_free};
use crate::game::{Frame, GameView, Keys};
use crate::snake::SnakeView;
use crate::vector::Vector2;
use crate::CELL_COUNT;

verus! {

/// The number of a cell of the field, counted by columns.
pub open spec fn cell_number(cell: Vector2) -> int {
    cell.x * CELL_COUNT + cell.y
}

/// The snake at the start has three cells, all on the field and no two the
/// same, and its head touches no other cell of it.
pub proof fn lemma_initial_snake()
    ensures
        SnakeView::initial().body.len() == 3,
        forall|i: int|
            0 <= i < SnakeView::initial().body.len() ==> (
            #[trigger] SnakeView::initial().body[i]).in_grid(),
        SnakeView::initial().body.no_duplicates(),
        !SnakeView::initial().bites_itself(),
        SnakeView::initial().can_advance(),
{
}

/// A step lengthens the snake by one cell if it was about to grow, and
/// leaves its length as it was otherwise.
pub proof fn law_step_length(snake: SnakeView)
    requires
        snake.body.len() >= 1,
    ensures
        snake.advance().body.len() == snake.body.len() + (if snake.add_segment {
            1int
        } else {
            0int
        }),
        !snake.advance().add_segment,
        snake.advance().direction == snake.direction,
{
}

/// Cells of the field that are all different are no more than the field has
/// cells.
pub proof fn lemma_distinct_cells_fit(body: Seq<Vector2>)
    requires
        body.no_duplicates(),
        forall|i: int| 0 <= i < body.len() ==> (#[trigger] body[i]).in_grid(),
    ensures
        body.len() <= CELL_COUNT * CELL_COUNT,
{
    // Two cells of the field with the same number are the same cell.
    let numbers = body.map_values(|cell: Vector2| cell_number(cell));
    assert(numbers.no_duplicates()) by {
        assert forall|i: int, j: int|
            0 <= i < numbers.len() && 0 <= j < numbers.len() && i != j implies numbers[i]
            != numbers[j] by {
            assert(body[i].in_grid() && body[j].in_grid() && body[i] != body[j]);
        }
    }
    numbers.unique_seq_to_set();
    // The numbers are all below the number of cells.
    let all = set_int_range(0, CELL_COUNT * CELL_COUNT);
    assert(numbers.to_set().subset_of(all)) by {
        assert forall|n: int| numbers.to_set().contains(n) implies all.contains(n) by {
            let i = choose|i: int| 0 <= i < numbers.len() && numbers[i] == n;
            assert(body[i].in_grid());
        }
    }
    lemma_int_range(0, CELL_COUNT * CELL_COUNT);
    lemma_len_subset(numbers.to_set(), all);
}

/// Between steps the snake is never longer than the field has cells, the
/// score stays that far below it, and the next step can be computed.
pub proof fn law_bounds(game: GameView)
    requires
        game.inv(),
    ensures
        game.snake.body.len() <= CELL_COUNT * CELL_COUNT,
        game.score <= CELL_COUNT * CELL_COUNT - 2,
        game.can_update(),
{
    lemma_distinct_cells_fit(game.snake.body);
}

/// A game that starts on a free cell starts in order.
pub proof fn law_start(food: Vector2)
    requires
        is_free(food, SnakeView::initial().body),
    ensures
        GameView::initial(food).inv(),
{
    lemma_initial_snake();
}

/// However a run ends, the game is in order afterwards, waits, and shows the
/// snake of the start and a score of 0.
pub proof fn law_game_over(game: GameView, draws: Seq<(i32, i32)>)
    ensures
        game.game_over(draws) matches Some(next) ==> {
            &&& next.inv()
            &&& !next.running
            &&& next.score == 0
            &&& next.snake == SnakeView::initial()
            &&& is_free(next.food, next.snake.body)
        },
{
    lemma_initial_snake();
    lemma_first_free(draws, SnakeView::initial().body);
}

/// A meal: when the head lies on the food, the snake is marked to grow, the
/// score goes up by exactly one, and the food moves to another cell, one
/// that is on the field and off the snake. The snake itself lies as before.
pub proof fn law_meal(game: GameView, draws: Seq<(i32, i32)>)
    requires
        game.snake.body.len() >= 1,
        game.eats(),
    ensures
        game.check_collision_with_food(draws) matches Some(next) ==> {
            &&& next.snake.add_segment
            &&& next.score == game.score + 1
            &&& next.food != game.food
            &&& is_free(next.food, next.snake.body)
            &&& next.snake.body == game.snake.body
            &&& next.snake.direction == game.snake.direction
            &&& next.running == game.running
        },
{
    lemma_first_free(draws, game.snake.body);
    assert(game.snake.body.contains(game.snake.body[0]));
}

/// Without a meal the test for one changes nothing.
pub proof fn law_no_meal(game: GameView, draws: Seq<(i32, i32)>)
    requires
        !game.eats(),
    ensures
        game.check_collision_with_food(draws) == Some(game),
{
}

/// A head that has left the field ends the run: the game waits, the score is
/// 0 and the snake is that of the start.
pub proof fn law_edge_collision(game: GameView, draws: Seq<(i32, i32)>)
    requires
        game.snake.body.len() >= 1,
        game.snake.body[0].x == CELL_COUNT || game.snake.body[0].x == -1 || game.snake.body[0].y
            == CELL_COUNT || game.snake.body[0].y == -1,
    ensures
        game.check_collision_with_edges(draws) matches Some(next) ==> {
            &&& !next.running
            &&& next.score == 0
            &&& next.snake == SnakeView::initial()
        },
{
}

/// A head that lies on another cell of the body ends the run: the game
/// waits, the score is 0 and the snake is that of the start.
pub proof fn law_self_collision(game: GameView, draws: Seq<(i32, i32)>, k: int)
    requires
        1 <= k < game.snake.body.len(),
        game.snake.body[k] == game.snake.body[0],
    ensures
        game.snake.bites_itself(),
        game.check_collision_with_tail(draws) matches Some(next) ==> {
            &&& !next.running
            &&& next.score == 0
            &&& next.snake == SnakeView::initial()
        },
{
}

/// A step that carries the head off the field or onto the body ends the run.
pub proof fn law_crash(game: GameView, draws: Seq<(i32, i32)>)
    requires
        game.running,
        game.snake.body.len() >= 1,
        game.moved().hits_edge() || game.moved().snake.bites_itself(),
    ensures
        game.update(draws) matches Some(next) ==> {
            &&& !next.running
            &&& next.score == 0
            &&& next.snake == SnakeView::initial()
        },
{
    lemma_initial_snake();
}

/// A step that ends no run: the head moves one cell in the snake's
/// direction, the snake grows by one cell exactly if it was about to, and the
/// score goes up by one exactly if the head has come to lie on the food.
pub proof fn law_plain_step(game: GameView, draws: Seq<(i32, i32)>)
    requires
        game.running,
        game.snake.body.len() >= 1,
        !game.moved().hits_edge(),
        !game.moved().snake.bites_itself(),
    ensures
        game.update(draws) matches Some(next) ==> {
            &&& next.running
            &&& next.snake.body == game.snake.advance().body
            &&& next.snake.body[0] == game.snake.next_head()
            &&& next.snake.body.len() == game.snake.body.len() + (if game.snake.add_segment {
                1int
            } else {
                0int
            })
            &&& next.snake.direction == game.snake.direction
            &&& next.snake.add_segment == game.moved().eats()
            &&& next.score == game.score + (if game.moved().eats() {
                1int
            } else {
                0int
            })
            &&& !game.moved().eats() ==> next.food == game.food
        },
{
}

/// The game stays in order from step to step. In particular the food never
/// lies on the snake.
pub proof fn law_update_keeps_order(game: GameView, draws: Seq<(i32, i32)>)
    requires
        game.inv(),
    ensures
        game.update(draws) matches Some(next) ==> next.inv() && !next.snake.body.contains(
            next.food,
        ),
{
    if game.running {
        lemma_initial_snake();
        let body = game.moved().snake.body;
        // All cells behind the new head are cells of the snake before the
        // step, each one place further back.
        assert forall|i: int| 1 <= i < body.len() implies body[i] == game.snake.body[i - 1] by {}
        lemma_first_free(draws, body);
        lemma_first_free(draws, SnakeView::initial().body);
    }
}

/// A turn is taken only during a run, only if a step has been taken since
/// the last turn, and only onto the other axis; it then uses up the
/// permission. Nothing else about the game changes, and where no turn is
/// taken nothing changes at all.
pub proof fn law_turn_admission(game: GameView, keys: Keys)
    ensures
        game.steer(keys).snake.body == game.snake.body,
        game.steer(keys).snake.add_segment == game.snake.add_segment,
        game.steer(keys).food == game.food,
        game.steer(keys).score == game.score,
        game.steer(keys).running == game.running,
        game.steer(keys).last_update_time == game.last_update_time,
        game.steer(keys).snake.direction != game.snake.direction ==> {
            &&& game.running
            &&& game.allow_move
            &&& !game.steer(keys).allow_move
            &&& !game.steer(keys).snake.direction.same_axis(game.snake.direction)
            &&& keys.requested(game.snake.direction) == Some(game.steer(keys).snake.direction)
        },
        game.steer(keys).snake.direction == game.snake.direction ==> game.steer(keys) == game,
        !game.allow_move ==> game.steer(keys) == game,
        game.running && game.allow_move && keys.requested(game.snake.direction) is Some
            ==> game.steer(keys).snake.direction != game.snake.direction,
{
}

/// The keys never ask for a turn along the snake's own axis, so neither for
/// a reversal nor for the direction it has; and a key across the axis is
/// always heard.
pub proof fn law_requested_turn(keys: Keys, current: Direction)
    ensures
        keys.requested(current) matches Some(d) ==> !d.same_axis(current) && d != current,
        current.horizontal() && (keys.up || keys.down) ==> keys.requested(current) is Some,
        current.vertical() && (keys.left || keys.right) ==> keys.requested(current) is Some,
        current.horizontal() && !keys.up && !keys.down ==> keys.requested(current) is None,
        current.vertical() && !keys.left && !keys.right ==> keys.requested(current) is None,
{
}

/// The game stays in order from frame to frame, whatever the clock and the
/// keys say.
pub proof fn law_handle_input_keeps_order(
    game: GameView,
    now: int,
    keys: Keys,
    draws: Seq<(i32, i32)>,
)
    requires
        game.inv(),
    ensures
        game.handle_input(now, keys, draws) matches Some(next) ==> next.inv()
            && !next.snake.body.contains(next.food),
{
    if game.running && game.tick_due(now) {
        law_update_keeps_order(GameView { last_update_time: now, ..game }, draws);
    }
}

/// While the game waits, a frame changes nothing but to start the next run
/// when the start key is down; the run then starts from the snake of the
/// start and a score of 0.
pub proof fn law_waiting(game: GameView, now: int, keys: Keys, draws: Seq<(i32, i32)>)
    requires
        game.inv(),
        !game.running,
    ensures
        game.handle_input(now, keys, draws) == Some(GameView { running: keys.enter, ..game }),
        game.snake == SnakeView::initial(),
        game.score == 0,
{
}

/// On a game in order each of the three tests, taken by itself, finds
/// nothing and changes nothing.
pub proof fn law_tests_at_rest(game: GameView, draws: Seq<(i32, i32)>)
    requires
        game.inv(),
    ensures
        !game.eats(),
        !game.hits_edge(),
        !game.snake.bites_itself(),
        game.check_collision_with_food(draws) == Some(game),
        game.check_collision_with_edges(draws) == Some(game),
        game.check_collision_with_tail(draws) == Some(game),
{
    assert(game.snake.body.contains(game.snake.body[0]));
}

/// Play keeps the game in order: from a start with the food on a free cell,
/// after any frames whatever, the food lies on the field and never on the
/// snake, the snake lies on the field and crosses no cell twice, and the
/// next frame can be computed.
pub proof fn law_play_keeps_order(food: Vector2, frames: Seq<Frame>)
    requires
        is_free(food, SnakeView::initial().body),
    ensures
        GameView::initial(food).after(frames).inv(),
        !GameView::initial(food).after(frames).snake.body.contains(
            GameView::initial(food).after(frames).food,
        ),
        GameView::initial(food).after(frames).can_update(),
    decreases frames.len(),
{
    let start = GameView::initial(food);
    if frames.len() == 0 {
        law_start(food);
    } else {
        law_play_keeps_order(food, frames.drop_last());
        let before = start.after(frames.drop_last());
        let frame = frames.last();
        law_handle_input_keeps_order(before, frame.now, frame.keys, frame.draws);
    }
    law_bounds(start.after(frames));
}

} // verus!
