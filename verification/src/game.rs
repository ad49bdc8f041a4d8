//! The game: a snake, food, a score, and the rules that join them.
//!
//! `GameView` is the state as the contracts see it, and its spec functions
//! are the rules: each says which state follows. The methods of `Game` carry
//! them out on the real state.
//!
//! Wherever food has to be placed anew, the rules take the first free cell
//! among the random draws that the caller hands in. If none of them is free
//! the step cannot be taken: the method then reports `NoFreeCell` and leaves
//! the game as it was, so that it can be called again with fresh draws.

use vstd::prelude::*;
use crate::direction::Direction;
use crate::food::{first_free, is_free, lemma_first_free, Food, NoFreeCell};
use crate::laws::{law_game_over, law_handle_input_keeps_order, law_start, law_update_keeps_order};
use crate::snake::{body_contains, range_contains, Snake, SnakeView};
use crate::vector::Vector2;
use crate::{CELL_COUNT, TICK_INTERVAL_MS};

verus! {

/// The keys that went down since the last frame.
#[derive(Clone, Copy, Debug, PartialEq, Eq, Structural)]
pub struct Keys {
    pub up: bool,
    pub down: bool,
    pub left: bool,
    pub right: bool,
    /// The key that starts a new run after the last one has ended.
    pub enter: bool,
}

impl Keys {
    /// The turn that the keys ask for while the snake heads in `current`:
    /// that of the first key, in the order up, down, left, right, whose
    /// direction does not run along the axis of `current`.
    pub open spec fn requested(self, current: Direction) -> Option<Direction> {
        if self.up && !current.vertical() {
            Some(Direction::Up)
        } else if self.down && !current.vertical() {
            Some(Direction::Down)
        } else if self.left && !current.horizontal() {
            Some(Direction::Left)
        } else if self.right && !current.horizontal() {
            Some(Direction::Right)
        } else {
            None
        }
    }

    /// No key at all.
    pub fn none() -> (r: Keys)
        ensures
            r == (Keys { up: false, down: false, left: false, right: false, enter: false }),
    {
        Keys { up: false, down: false, left: false, right: false, enter: false }
    }

    /// The turn that the keys ask for while the snake heads in `current`.
    pub fn requested_turn(self, current: Direction) -> (r: Option<Direction>)
        ensures
            r == self.requested(current),
            r matches Some(d) ==> !d.same_axis(current),
    {
        if self.up && !current.is_vert() {
            Some(Direction::Up)
        } else if self.down && !current.is_vert() {
            Some(Direction::Down)
        } else if self.left && !current.is_horiz() {
            Some(Direction::Left)
        } else if self.right && !current.is_horiz() {
            Some(Direction::Right)
        } else {
            None
        }
    }
}

/// The sounds that a step asks its caller to play.
#[derive(Clone, Copy, Debug, PartialEq, Eq, Structural)]
pub struct Effects {
    /// The snake has eaten.
    pub eat_sound: bool,
    /// The run has ended against a wall or the snake's own body.
    pub wall_sound: bool,
}

impl Effects {
    pub open spec fn silent() -> Effects {
        Effects { eat_sound: false, wall_sound: false }
    }
}

/// What one frame brings from outside: the clock reading in milliseconds,
/// the keys that went down, and the cells drawn at random.
pub struct Frame {
    pub now: int,
    pub keys: Keys,
    pub draws: Seq<(i32, i32)>,
}

/// The game as the contracts see it.
#[verifier::ext_equal]
pub struct GameView {
    pub snake: SnakeView,
    /// The cell on which the food lies.
    pub food: Vector2,
    /// A run is under way; otherwise the game waits to be started again.
    pub running: bool,
    pub score: int,
    /// The clock reading at the last step, in milliseconds.
    pub last_update_time: int,
    /// A turn may be taken: set by every step, used up by a turn.
    pub allow_move: bool,
}

impl GameView {
    /// The game at its start, with the food on `food`.
    pub open spec fn initial(food: Vector2) -> GameView {
        GameView {
            snake: SnakeView::initial(),
            food,
            running: true,
            score: 0,
            last_update_time: 0,
            allow_move: false,
        }
    }

    /// What holds of the game whenever it is at rest between two steps: the
    /// snake has a head, lies on the field and crosses no cell twice; the
    /// food lies on the field and off the snake; the score is the number of
    /// cells by which the snake has grown beyond its first three, counting
    /// the one that it is about to grow; and while the game waits, the snake
    /// is as at the start and the score is 0.
    pub open spec fn inv(self) -> bool {
        &&& self.snake.body.len() >= 1
        &&& forall|i: int|
            0 <= i < self.snake.body.len() ==> (#[trigger] self.snake.body[i]).in_grid()
        &&& self.snake.body.no_duplicates()
        &&& is_free(self.food, self.snake.body)
        &&& 0 <= self.score
        &&& self.score + 3 == self.snake.body.len() + (if self.snake.add_segment {
            1int
        } else {
            0int
        })
        &&& !self.running ==> self.snake == SnakeView::initial() && self.score == 0
    }

    /// The snake's head lies on the food.
    pub open spec fn eats(self) -> bool {
        self.snake.body[0] == self.food
    }

    /// The snake's head has just left the field: one of its coordinates is
    /// one less than the lowest or one more than the highest on the field.
    pub open spec fn hits_edge(self) -> bool {
        let head = self.snake.body[0];
        head.x == CELL_COUNT || head.x == -1 || head.y == CELL_COUNT || head.y == -1
    }

    /// The end of a run: the snake is as at the start, the food lies on the
    /// first cell drawn that is free of it, the score is 0, and the game
    /// waits.
    pub open spec fn game_over(self, draws: Seq<(i32, i32)>) -> Option<GameView> {
        match first_free(draws, SnakeView::initial().body) {
            Some(cell) => Some(
                GameView {
                    snake: SnakeView::initial(),
                    food: cell,
                    running: false,
                    score: 0,
                    ..self
                },
            ),
            None => None,
        }
    }

    /// A meal, if the head lies on the food: the food moves to the first
    /// cell drawn that is free of the snake as it lies now, the snake will
    /// grow with its next step, and the score goes up by one.
    pub open spec fn check_collision_with_food(self, draws: Seq<(i32, i32)>) -> Option<GameView> {
        if self.eats() {
            match first_free(draws, self.snake.body) {
                Some(cell) => Some(
                    GameView {
                        snake: SnakeView { add_segment: true, ..self.snake },
                        food: cell,
                        score: self.score + 1,
                        ..self
                    },
                ),
                None => None,
            }
        } else {
            Some(self)
        }
    }

    /// The run ends if the head has left the field.
    pub open spec fn check_collision_with_edges(self, draws: Seq<(i32, i32)>) -> Option<GameView> {
        if self.hits_edge() {
            self.game_over(draws)
        } else {
            Some(self)
        }
    }

    /// The run ends if the head lies on another cell of the body.
    pub open spec fn check_collision_with_tail(self, draws: Seq<(i32, i32)>) -> Option<GameView> {
        if self.snake.bites_itself() {
            self.game_over(draws)
        } else {
            Some(self)
        }
    }

    /// The game after the snake alone has taken its step.
    pub open spec fn moved(self) -> GameView {
        GameView { snake: self.snake.advance(), ..self }
    }

    /// A step can be computed on the machine: while a run is under way the
    /// snake has a head whose next cell has coordinates that the machine can
    /// hold, and the score is below the largest number it can hold.
    pub open spec fn can_update(self) -> bool {
        self.running ==> self.snake.can_advance() && self.score < i32::MAX
    }

    /// One step of the game. While the game waits nothing happens. During a
    /// run the snake moves, and then the three tests are made in this order,
    /// each on what the one before has left: for a meal, for the edge, for
    /// the snake's own body.
    pub open spec fn update(self, draws: Seq<(i32, i32)>) -> Option<GameView> {
        if !self.running {
            Some(self)
        } else {
            match self.moved().check_collision_with_food(draws) {
                Some(fed) => match fed.check_collision_with_edges(draws) {
                    Some(inside) => inside.check_collision_with_tail(draws),
                    None => None,
                },
                None => None,
            }
        }
    }

    /// The sounds of one step: that of a meal if the head has moved onto the
    /// food, that of a crash if it has moved off the field or onto the body.
    pub open spec fn update_effects(self) -> Effects {
        Effects {
            eat_sound: self.running && self.moved().eats(),
            wall_sound: self.running && (self.moved().hits_edge()
                || self.moved().snake.bites_itself()),
        }
    }

    /// A step is due at the clock reading `now`.
    pub open spec fn tick_due(self, now: int) -> bool {
        now - self.last_update_time >= TICK_INTERVAL_MS
    }

    /// A turn is admitted if a run is under way, a step has been taken since
    /// the last turn, and the keys ask for a direction across the snake's
    /// own. It uses up the permission.
    pub open spec fn steer(self, keys: Keys) -> GameView {
        if self.running && self.allow_move {
            match keys.requested(self.snake.direction) {
                Some(direction) => GameView {
                    snake: SnakeView { direction, ..self.snake },
                    allow_move: false,
                    ..self
                },
                None => self,
            }
        } else {
            self
        }
    }

    /// One frame. During a run: if a step is due it is taken, the clock
    /// reading is kept and a turn is permitted again; then the keys are
    /// looked at for a turn. While the game waits, the start key alone is
    /// looked at, and it starts the next run.
    pub open spec fn handle_input(self, now: int, keys: Keys, draws: Seq<(i32, i32)>) -> Option<
        GameView,
    > {
        if self.running {
            if self.tick_due(now) {
                match (GameView { last_update_time: now, ..self }).update(draws) {
                    Some(next) => Some((GameView { allow_move: true, ..next }).steer(keys)),
                    None => None,
                }
            } else {
                Some(self.steer(keys))
            }
        } else if keys.enter {
            Some(GameView { running: true, ..self })
        } else {
            Some(self)
        }
    }

    /// The game after the frames `frames`, one after the other. A frame
    /// whose draws hold no free cell where one is needed leaves the game as
    /// it was.
    pub open spec fn after(self, frames: Seq<Frame>) -> GameView
        decreases frames.len(),
    {
        if frames.len() == 0 {
            self
        } else {
            let before = self.after(frames.drop_last());
            let frame = frames.last();
            match before.handle_input(frame.now, frame.keys, frame.draws) {
                Some(next) => next,
                None => before,
            }
        }
    }

    /// The sounds of one frame: those of its step, if it took one.
    pub open spec fn handle_input_effects(self, now: int) -> Effects {
        if self.running && self.tick_due(now) {
            self.update_effects()
        } else {
            Effects::silent()
        }
    }
}

#[derive(Debug)]
pub struct Game {
    pub snake: Snake,
    pub food: Food,
    /// A run is under way; otherwise the game waits to be started again.
    pub running: bool,
    pub score: i32,
    /// The clock reading at the last step, in milliseconds.
    pub last_update_time: u64,
    /// A turn may be taken: set by every step, used up by a turn.
    pub allow_move: bool,
}

impl View for Game {
    type V = GameView;

    open spec fn view(&self) -> GameView {
        GameView {
            snake: self.snake@,
            food: self.food.pos,
            running: self.running,
            score: self.score as int,
            last_update_time: self.last_update_time as int,
            allow_move: self.allow_move,
        }
    }
}

impl Game {
    /// Starts a game: the snake as at every start, the food on the first
    /// cell among `draws` that is free of it.
    pub fn new(draws: &Vec<(i32, i32)>) -> (r: Result<Game, NoFreeCell>)
        ensures
            match first_free(draws@, SnakeView::initial().body) {
                Some(cell) => r matches Ok(game) && game@ == GameView::initial(cell),
                None => r is Err,
            },
            r matches Ok(game) ==> game@.inv(),
    {
        let snake = Snake::new();
        proof {
            lemma_first_free(draws@, SnakeView::initial().body);
            match first_free(draws@, SnakeView::initial().body) {
                Some(cell) => law_start(cell),
                None => {},
            }
        }
        match Food::new(draws, &snake.body) {
            Ok(food) => Ok(
                Game {
                    snake,
                    food,
                    running: true,
                    score: 0,
                    last_update_time: 0,
                    allow_move: false,
                },
            ),
            Err(e) => Err(e),
        }
    }

    /// Makes a second game in the same state.
    pub fn duplicate(&self) -> (r: Game)
        ensures
            r@ == self@,
    {
        Game {
            snake: self.snake.duplicate(),
            food: Food { pos: self.food.pos },
            running: self.running,
            score: self.score,
            last_update_time: self.last_update_time,
            allow_move: self.allow_move,
        }
    }

    /// Tells whether the game is in order, as it is between any two steps of
    /// play.
    pub fn check_invariant(&self) -> (r: bool)
        ensures
            r == self@.inv(),
    {
        let n: usize = self.snake.body.len();
        if n == 0 {
            return false;
        }
        let mut i: usize = 0;
        while i < n
            invariant
                n == self.snake.body@.len(),
                i <= n,
                forall|k: int| 0 <= k < i ==> (#[trigger] self.snake.body@[k]).in_grid(),
                forall|a: int, b: int|
                    0 <= a < b < i ==> self.snake.body@[a] != self.snake.body@[b],
            decreases n - i,
        {
            let cell: Vector2 = self.snake.body[i];
            if !cell.is_in_grid() {
                return false;
            }
            if range_contains(&self.snake.body, 0, i, cell) {
                proof {
                    let before = self.snake.body@.subrange(0, i as int);
                    let a = choose|a: int| 0 <= a < before.len() && before[a] == cell;
                    assert(self.snake.body@[a] == self.snake.body@[i as int]);
                }
                return false;
            }
            proof {
                let before = self.snake.body@.subrange(0, i as int);
                assert forall|a: int| 0 <= a < i implies self.snake.body@[a] != cell by {
                    assert(before[a] == self.snake.body@[a]);
                }
            }
            i += 1;
        }
        if !self.food.pos.is_in_grid() || body_contains(&self.snake.body, self.food.pos) {
            return false;
        }
        if self.score < 0 {
            return false;
        }
        let reach: u128 = n as u128 + (if self.snake.add_segment {
            1u128
        } else {
            0u128
        });
        if self.score as u128 + 3 != reach {
            return false;
        }
        if !self.running {
            let at_start: bool = n == 3
                && self.snake.body[0] == (Vector2 { x: 6, y: 9 })
                && self.snake.body[1] == (Vector2 { x: 5, y: 9 })
                && self.snake.body[2] == (Vector2 { x: 4, y: 9 })
                && self.snake.direction == Direction::Right
                && !self.snake.add_segment;
            proof {
                if at_start {
                    assert(self.snake@.body =~= SnakeView::initial().body);
                }
            }
            if !at_start || self.score != 0 {
                return false;
            }
        }
        true
    }

    /// Tells whether `update` and `handle_input` may be called.
    pub fn can_update(&self) -> (r: bool)
        ensures
            r == self@.can_update(),
    {
        !self.running || (self.snake.can_advance() && self.score < i32::MAX)
    }

    /// Takes one step of the game, and says which sounds to play.
    pub fn update(&mut self, draws: &Vec<(i32, i32)>) -> (r: Result<Effects, NoFreeCell>)
        requires
            old(self)@.can_update(),
        ensures
            match old(self)@.update(draws@) {
                Some(next) => final(self)@ == next && r == Ok::<Effects, NoFreeCell>(
                    old(self)@.update_effects(),
                ),
                None => final(self)@ == old(self)@ && r is Err,
            },
            old(self)@.inv() ==> final(self)@.inv(),
    {
        proof {
            if self@.inv() {
                law_update_keeps_order(self@, draws@);
            }
        }
        if !self.running {
            return Ok(Effects { eat_sound: false, wall_sound: false });
        }
        let saved: Game = self.duplicate();
        self.snake.update();
        let ate: bool = match self.check_collision_with_food(draws) {
            Ok(ate) => ate,
            Err(e) => {
                *self = saved;
                return Err(e);
            },
        };
        let left_field: bool = match self.check_collision_with_edges(draws) {
            Ok(hit) => hit,
            Err(e) => {
                *self = saved;
                return Err(e);
            },
        };
        let bit_itself: bool = match self.check_collision_with_tail(draws) {
            Ok(hit) => hit,
            Err(e) => {
                *self = saved;
                return Err(e);
            },
        };
        Ok(Effects { eat_sound: ate, wall_sound: left_field || bit_itself })
    }

    /// Handles one frame: takes a step if one is due at the clock reading
    /// `now`, in milliseconds, then admits a turn or a new start as `keys`
    /// ask, and says which sounds to play.
    pub fn handle_input(&mut self, now: u64, keys: Keys, draws: &Vec<(i32, i32)>) -> (r: Result<
        Effects,
        NoFreeCell,
    >)
        requires
            old(self)@.can_update(),
        ensures
            match old(self)@.handle_input(now as int, keys, draws@) {
                Some(next) => final(self)@ == next && r == Ok::<Effects, NoFreeCell>(
                    old(self)@.handle_input_effects(now as int),
                ),
                None => final(self)@ == old(self)@ && r is Err,
            },
            old(self)@.inv() ==> final(self)@.inv(),
    {
        proof {
            if self@.inv() {
                law_handle_input_keeps_order(self@, now as int, keys, draws@);
            }
        }
        let mut effects = Effects { eat_sound: false, wall_sound: false };
        if self.running {
            if now >= self.last_update_time && now - self.last_update_time >= TICK_INTERVAL_MS {
                let before: u64 = self.last_update_time;
                self.last_update_time = now;
                match self.update(draws) {
                    Ok(e) => {
                        effects = e;
                    },
                    Err(e) => {
                        self.last_update_time = before;
                        return Err(e);
                    },
                }
                self.allow_move = true;
            }
            if self.running && self.allow_move {
                if let Some(direction) = keys.requested_turn(self.snake.direction) {
                    self.snake.direction = direction;
                    self.allow_move = false;
                }
            }
        } else if keys.enter {
            self.running = true;
        }
        Ok(effects)
    }

    /// Tests for a meal, and says whether there was one.
    pub fn check_collision_with_food(&mut self, draws: &Vec<(i32, i32)>) -> (r: Result<
        bool,
        NoFreeCell,
    >)
        requires
            old(self)@.snake.body.len() >= 1,
            old(self)@.score < i32::MAX,
        ensures
            match old(self)@.check_collision_with_food(draws@) {
                Some(next) => final(self)@ == next && r == Ok::<bool, NoFreeCell>(
                    old(self)@.eats(),
                ),
                None => final(self)@ == old(self)@ && r is Err,
            },
    {
        if self.snake.body[0] == self.food.pos {
            match Food::generate_random_pos(draws, &self.snake.body) {
                Ok(pos) => {
                    self.food.pos = pos;
                    self.snake.add_segment = true;
                    self.score += 1;
                    Ok(true)
                },
                Err(e) => Err(e),
            }
        } else {
            Ok(false)
        }
    }

    /// Tests whether the head has left the field, ends the run if so, and
    /// says whether it did.
    pub fn check_collision_with_edges(&mut self, draws: &Vec<(i32, i32)>) -> (r: Result<
        bool,
        NoFreeCell,
    >)
        requires
            old(self)@.snake.body.len() >= 1,
        ensures
            match old(self)@.check_collision_with_edges(draws@) {
                Some(next) => final(self)@ == next && r == Ok::<bool, NoFreeCell>(
                    old(self)@.hits_edge(),
                ),
                None => final(self)@ == old(self)@ && r is Err,
            },
    {
        let head: Vector2 = self.snake.body[0];
        if head.x == CELL_COUNT || head.x == -1 || head.y == CELL_COUNT || head.y == -1 {
            match self.game_over(draws) {
                Ok(()) => Ok(true),
                Err(e) => Err(e),
            }
        } else {
            Ok(false)
        }
    }

    /// Tests whether the head lies on another cell of the body, ends the run
    /// if so, and says whether it did.
    pub fn check_collision_with_tail(&mut self, draws: &Vec<(i32, i32)>) -> (r: Result<
        bool,
        NoFreeCell,
    >)
        requires
            old(self)@.snake.body.len() >= 1,
        ensures
            match old(self)@.check_collision_with_tail(draws@) {
                Some(next) => final(self)@ == next && r == Ok::<bool, NoFreeCell>(
                    old(self)@.snake.bites_itself(),
                ),
                None => final(self)@ == old(self)@ && r is Err,
            },
    {
        if self.snake.bites_itself() {
            match self.game_over(draws) {
                Ok(()) => Ok(true),
                Err(e) => Err(e),
            }
        } else {
            Ok(false)
        }
    }

    /// Ends the run.
    pub fn game_over(&mut self, draws: &Vec<(i32, i32)>) -> (r: Result<(), NoFreeCell>)
        ensures
            match old(self)@.game_over(draws@) {
                Some(next) => final(self)@ == next && r is Ok,
                None => final(self)@ == old(self)@ && r is Err,
            },
            r is Ok ==> final(self)@.inv(),
    {
        proof {
            law_game_over(self@, draws@);
        }
        let fresh = Snake::new();
        match Food::generate_random_pos(draws, &fresh.body) {
            Ok(pos) => {
                self.snake = fresh;
                self.food.pos = pos;
                self.running = false;
                self.score = 0;
                Ok(())
            },
            Err(e) => Err(e),
        }
    }
}

} // verus!
