//! The snake: an ordered run of cells, head first, that moves one cell at a
//! time and grows one step after it has eaten.

use std::collections::VecDeque;
use vstd::prelude::*;
use crate::direction::Direction;
use crate::vector::Vector2;

verus! {

/// The snake as the contracts see it.
#[verifier::ext_equal]
pub struct SnakeView {
    /// The cells of the body, head first.
    pub body: Seq<Vector2>,
    pub direction: Direction,
    /// Set by a meal; the next step then keeps the tail.
    pub add_segment: bool,
}

impl SnakeView {
    /// The snake at the start of every run: three cells in a row, heading
    /// right, not growing.
    pub open spec fn initial() -> SnakeView {
        SnakeView {
            body: seq![Vector2 { x: 6, y: 9 }, Vector2 { x: 5, y: 9 }, Vector2 { x: 4, y: 9 }],
            direction: Direction::Right,
            add_segment: false,
        }
    }

    pub open spec fn head(self) -> Vector2 {
        self.body[0]
    }

    /// The cell that the head enters with the next step.
    pub open spec fn next_head(self) -> Vector2 {
        self.head().stepped(self.direction.delta())
    }

    /// The snake has a head, and the head's next cell has coordinates that
    /// the machine can hold.
    pub open spec fn can_advance(self) -> bool {
        self.body.len() >= 1 && self.head().can_step(self.direction.delta())
    }

    /// One step: the head's next cell is put in front, and the last cell is
    /// given up unless the snake is growing. Growth is used up by the step.
    pub open spec fn advance(self) -> SnakeView {
        SnakeView {
            body: seq![self.next_head()] + (if self.add_segment {
                self.body
            } else {
                self.body.drop_last()
            }),
            direction: self.direction,
            add_segment: false,
        }
    }

    /// The head lies on another cell of the body.
    pub open spec fn bites_itself(self) -> bool {
        exists|k: int| 1 <= k < self.body.len() && #[trigger] self.body[k] == self.body[0]
    }
}

#[derive(Debug)]
pub struct Snake {
    /// The cells of the body, head first.
    pub body: VecDeque<Vector2>,
    pub direction: Direction,
    /// Set by a meal; the next step then keeps the tail.
    pub add_segment: bool,
}

impl View for Snake {
    type V = SnakeView;

    open spec fn view(&self) -> SnakeView {
        SnakeView { body: self.body@, direction: self.direction, add_segment: self.add_segment }
    }
}

/// Tells whether `cell` is one of the first `end` cells of `body`, from
/// index `start` on.
pub fn range_contains(body: &VecDeque<Vector2>, start: usize, end: usize, cell: Vector2) -> (r:
    bool)
    requires
        start <= end <= body@.len(),
    ensures
        r == body@.subrange(start as int, end as int).contains(cell),
{
    let ghost part = body@.subrange(start as int, end as int);
    let mut i: usize = start;
    while i < end
        invariant
            start <= i <= end <= body@.len(),
            part == body@.subrange(start as int, end as int),
            forall|k: int| start <= k < i ==> body@[k] != cell,
        decreases end - i,
    {
        if body[i] == cell {
            assert(part[i - start] == cell);
            return true;
        }
        i += 1;
    }
    assert forall|k: int| 0 <= k < part.len() implies part[k] != cell by {
        assert(part[k] == body@[k + start]);
    }
    false
}

/// Tells whether `cell` is one of the cells of `body`.
pub fn body_contains(body: &VecDeque<Vector2>, cell: Vector2) -> (r: bool)
    ensures
        r == body@.contains(cell),
{
    assert(body@.subrange(0, body@.len() as int) == body@);
    range_contains(body, 0, body.len(), cell)
}

/// Makes a second deque with the same cells in the same order.
pub fn copy_body(body: &VecDeque<Vector2>) -> (r: VecDeque<Vector2>)
    ensures
        r@ == body@,
{
    let mut copy: VecDeque<Vector2> = VecDeque::new();
    let mut i: usize = 0;
    while i < body.len()
        invariant
            i <= body@.len(),
            copy@ == body@.subrange(0, i as int),
        decreases body@.len() - i,
    {
        copy.push_back(body[i]);
        i += 1;
    }
    assert(body@.subrange(0, body@.len() as int) == body@);
    copy
}

impl Snake {
    pub fn new() -> (r: Snake)
        ensures
            r@ == SnakeView::initial(),
    {
        let mut body: VecDeque<Vector2> = VecDeque::new();
        body.push_back(Vector2 { x: 6, y: 9 });
        body.push_back(Vector2 { x: 5, y: 9 });
        body.push_back(Vector2 { x: 4, y: 9 });
        Snake { body, direction: Direction::Right, add_segment: false }
    }

    /// Tells whether `update` may be called.
    pub fn can_advance(&self) -> (r: bool)
        ensures
            r == self@.can_advance(),
    {
        if self.body.len() == 0 {
            return false;
        }
        let head: Vector2 = self.body[0];
        let delta: Vector2 = self.direction.to_vector2();
        head.x.checked_add(delta.x).is_some() && head.y.checked_add(delta.y).is_some()
    }

    /// Moves the snake by one cell in its direction. No cell is tested for
    /// being on the field or free: the new head may lie anywhere.
    pub fn update(&mut self)
        requires
            old(self)@.can_advance(),
        ensures
            final(self)@ == old(self)@.advance(),
            final(self)@.body.len() == old(self)@.body.len() + (if old(self)@.add_segment {
                1int
            } else {
                0int
            }),
            final(self)@.body[0] == old(self)@.next_head(),
    {
        let head: Vector2 = self.body[0];
        self.body.push_front(head.step(self.direction.to_vector2()));
        if self.add_segment {
            self.add_segment = false;
        } else {
            self.body.pop_back();
            assert(self.body@ == seq![old(self)@.next_head()] + old(self)@.body.drop_last());
        }
    }

    /// Puts the snake back into the state in which every run starts.
    pub fn reset(&mut self)
        ensures
            final(self)@ == SnakeView::initial(),
    {
        *self = Snake::new();
    }

    /// Tells whether the head lies on another cell of the body.
    pub fn bites_itself(&self) -> (r: bool)
        requires
            self@.body.len() >= 1,
        ensures
            r == self@.bites_itself(),
    {
        let head: Vector2 = self.body[0];
        let r: bool = range_contains(&self.body, 1, self.body.len(), head);
        proof {
            let rest = self.body@.subrange(1, self.body@.len() as int);
            if r {
                let i = choose|i: int| 0 <= i < rest.len() && rest[i] == head;
                assert(self.body@[i + 1] == self.body@[0]);
            }
            if self@.bites_itself() {
                let k = choose|k: int|
                    1 <= k < self@.body.len() && #[trigger] self@.body[k] == self@.body[0];
                assert(rest[k - 1] == head);
            }
        }
        r
    }

    /// Makes a second snake in the same state.
    pub fn duplicate(&self) -> (r: Snake)
        ensures
            r@ == self@,
    {
        Snake {
            body: copy_body(&self.body),
            direction: self.direction,
            add_segment: self.add_segment,
        }
    }
}

} // verus!
