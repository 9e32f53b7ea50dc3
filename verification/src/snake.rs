//! The snake: its ordered body, heading and score, the movement and
//! growth steps, and the collision resolution that decides each frame's
//! outcome.

use vstd::prelude::*;
use crate::food::Food;
use crate::grid::{cells_overlap, cells_overlap_at, opposite, step_dx, step_dy, Direction, Field, Position, CELL};

verus! {

/// What one round of collision resolution decided. `SelfCollided` and
/// `BoundaryCollided` are fatal: the driving loop must stop stepping.
/// `Fed` reports the one non-fatal mutating event; `Continue` reports
/// an uneventful step.
#[derive(Clone, Copy, PartialEq, Eq, Structural, Debug)]
pub enum Outcome {
    Continue,
    Fed,
    SelfCollided,
    BoundaryCollided,
}

/// The snake. `body` runs head first: index 0 is the head, the last
/// index the tail. The body is never empty.
pub struct Snake {
    pub body: Vec<Position>,
    pub direction: Direction,
    pub points: u32,
}

/// The cell the head would occupy after one step of `s` in its current
/// heading, as unbounded integers.
pub open spec fn next_head_x(s: Snake) -> int {
    s.body@[0].x + step_dx(s.direction)
}

/// See `next_head_x`.
pub open spec fn next_head_y(s: Snake) -> int {
    s.body@[0].y + step_dy(s.direction)
}

/// The next head cell fits in the coordinate type, so a step can be
/// taken without overflow.
pub open spec fn next_head_fits(s: Snake) -> bool {
    i32::MIN <= next_head_x(s) <= i32::MAX && i32::MIN <= next_head_y(s) <= i32::MAX
}

/// The next head cell of `s` as a position. Meaningful when
/// `next_head_fits(s)` holds.
pub open spec fn next_head(s: Snake) -> Position {
    Position { x: next_head_x(s) as i32, y: next_head_y(s) as i32 }
}

/// The head's cell strictly overlaps some non-head segment's cell. The
/// head is never tested against itself.
pub open spec fn self_hit(s: Snake) -> bool {
    exists|i: int| 1 <= i < s.body@.len() && cells_overlap(s.body@[0], s.body@[i])
}

/// The outcome that resolution reports for a snake in state `s` after
/// the feeding phase, where `fed` says whether that phase fired:
/// self-collision is checked before the boundary, and either fatal
/// outcome hides the `Fed` event of the same step.
pub open spec fn resolution(s: Snake, field: Field, fed: bool) -> Outcome {
    if self_hit(s) {
        Outcome::SelfCollided
    } else if !field.contains(s.body@[0]) {
        Outcome::BoundaryCollided
    } else if fed {
        Outcome::Fed
    } else {
        Outcome::Continue
    }
}

/// Every segment of `s` lies on the same step grid as the head: the
/// anchors differ by whole multiples of `CELL` on each axis. A snake
/// that only ever moves and grows by whole steps stays in this shape.
pub open spec fn on_step_grid(s: Snake) -> bool {
    forall|i: int|
        0 <= i < s.body@.len() ==> ((s.body@[0].x - #[trigger] s.body@[i].x) % (CELL as int) == 0
            && (s.body@[0].y - s.body@[i].y) % (CELL as int) == 0)
}

/// On a body laid out on the step grid, self-collision is detected
/// exactly when the head's cell coincides with some non-head segment's
/// cell; segments in adjacent cells never trigger it.
pub proof fn lemma_self_hit_on_grid_is_coincidence(s: Snake)
    requires
        s.wf(),
        on_step_grid(s),
    ensures
        self_hit(s) <==> exists|i: int| 1 <= i < s.body@.len() && #[trigger] s.body@[i] == s.body@[0],
{
    if self_hit(s) {
        let i = choose|i: int| 1 <= i < s.body@.len() && cells_overlap(s.body@[0], s.body@[i]);
        crate::grid::lemma_grid_overlap_is_equality(s.body@[0], s.body@[i]);
        assert(s.body@[i] == s.body@[0]);
    }
    if exists|i: int| 1 <= i < s.body@.len() && #[trigger] s.body@[i] == s.body@[0] {
        let i = choose|i: int| 1 <= i < s.body@.len() && #[trigger] s.body@[i] == s.body@[0];
        crate::grid::lemma_grid_overlap_is_equality(s.body@[0], s.body@[i]);
        assert(cells_overlap(s.body@[0], s.body@[i]));
    }
}

impl Snake {
    /// The body holds at least the head segment.
    pub open spec fn wf(self) -> bool {
        self.body@.len() >= 1
    }

    /// A freshly started snake: a single segment at `start`, heading
    /// right, no points.
    pub fn new(start: Position) -> (s: Snake)
        ensures
            s.body@ =~= seq![start],
            s.direction == Direction::Right,
            s.points == 0,
            s.wf(),
    {
        Snake { body: vec![start], direction: Direction::Right, points: 0 }
    }

    /// Requests a heading change. The request is honoured unless it
    /// asks for the heading directly opposite the current one: a snake
    /// may not reverse into its own neck, and such a request is ignored
    /// silently. Nothing else changes.
    pub fn set_direction(&mut self, requested: Direction)
        ensures
            final(self).direction == (if requested == opposite(old(self).direction) {
                old(self).direction
            } else {
                requested
            }),
            final(self).body == old(self).body,
            final(self).points == old(self).points,
    {
        if !(requested == self.direction.opposite_of()) {
            self.direction = requested;
        }
    }

    /// Prepends a new head one cell ahead of the current head in the
    /// current heading, keeping the tail: the body grows by exactly one
    /// segment. This is the sole mechanism by which the body ever
    /// grows.
    pub fn grow(&mut self)
        requires
            old(self).wf(),
            next_head_fits(*old(self)),
        ensures
            final(self).body@ == old(self).body@.insert(0, next_head(*old(self))),
            final(self).body@.len() == old(self).body@.len() + 1,
            final(self).direction == old(self).direction,
            final(self).points == old(self).points,
            final(self).wf(),
    {
        let old_head_x = self.body[0].x;
        let old_head_y = self.body[0].y;

        let new_head = match self.direction {
            Direction::Up => Position { x: old_head_x, y: old_head_y - CELL },
            Direction::Down => Position { x: old_head_x, y: old_head_y + CELL },
            Direction::Right => Position { x: old_head_x + CELL, y: old_head_y },
            Direction::Left => Position { x: old_head_x - CELL, y: old_head_y },
        };

        self.body.insert(0, new_head);
    }

    /// Advances the snake by exactly one cell in the current heading:
    /// the new head is prepended and the former tail dropped, so the
    /// body's length never changes.
    pub fn step_forward(&mut self)
        requires
            old(self).wf(),
            next_head_fits(*old(self)),
        ensures
            final(self).body@ == old(self).body@.insert(0, next_head(*old(self))).drop_last(),
            final(self).body@.len() == old(self).body@.len(),
            final(self).body@[0] == next_head(*old(self)),
            final(self).direction == old(self).direction,
            final(self).points == old(self).points,
            final(self).wf(),
    {
        self.grow();
        self.body.pop();
    }

    /// Decides `self_hit` on the concrete body: whether the head's cell
    /// strictly overlaps any non-head segment's cell.
    pub fn head_hits_body(&self) -> (r: bool)
        requires
            self.wf(),
        ensures
            r == self_hit(*self),
    {
        let head = self.body[0];
        let mut i: usize = 1;
        while i < self.body.len()
            invariant
                1 <= i <= self.body@.len(),
                head == self.body@[0],
                forall|j: int| 1 <= j < i ==> !cells_overlap(self.body@[0], self.body@[j]),
            decreases self.body@.len() - i,
        {
            if cells_overlap_at(head, self.body[i]) {
                return true;
            }
            i = i + 1;
        }
        false
    }

    /// Resolves the collisions of one simulation step, strictly after
    /// `step_forward`, in the fixed order food, self, boundary.
    ///
    /// On food overlap the snake grows (tail retained), scores one
    /// point, and the food is relocated in-bounds; feeding is resolved
    /// first so the grown head, not a stale one, is what the fatal
    /// checks see. Self- and boundary-collision are fatal and reported
    /// through the returned `Outcome`; the snake and food keep whatever
    /// state the feeding phase left them in.
    pub fn resolve_collisions(&mut self, food: &mut Food, field: &Field) -> (r: Outcome)
        requires
            old(self).wf(),
            field.wf(),
            old(self).points < u32::MAX,
            cells_overlap(old(self).body@[0], old(food).pos) ==> next_head_fits(*old(self)),
        ensures
            final(self).wf(),
            final(self).direction == old(self).direction,
            cells_overlap(old(self).body@[0], old(food).pos) ==> {
                &&& final(self).body@ == old(self).body@.insert(0, next_head(*old(self)))
                &&& final(self).points == old(self).points + 1
                &&& field.holds_cell(final(food).pos)
            },
            !cells_overlap(old(self).body@[0], old(food).pos) ==> {
                &&& final(self).body@ == old(self).body@
                &&& final(self).points == old(self).points
                &&& *final(food) == *old(food)
            },
            r == resolution(*final(self), *field, cells_overlap(old(self).body@[0], old(food).pos)),
    {
        let fed = cells_overlap_at(self.body[0], food.pos);
        if fed {
            self.grow();
            self.points = self.points + 1;
            food.relocate(field);
        }

        if self.head_hits_body() {
            return Outcome::SelfCollided;
        }

        let head = self.body[0];
        if head.x > field.width || head.x < 0 || head.y > field.height || head.y < 0 {
            return Outcome::BoundaryCollided;
        }

        if fed {
            Outcome::Fed
        } else {
            Outcome::Continue
        }
    }
}

} // verus!
