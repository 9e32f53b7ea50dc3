//! The food: a single cell that the snake eats, relocated to a fresh
//! pseudo-random in-bounds cell on every consumption.

use vstd::prelude::*;
use rand::Rng;
use crate::grid::{Field, Position, CELL};

verus! {

/// The one piece of food on the field. It has no state beyond its
/// anchor position and no lifecycle beyond construction and relocation.
#[derive(Clone, Copy, PartialEq, Eq, Structural, Debug)]
pub struct Food {
    pub pos: Position,
}

/// Relies on `rand::Rng::gen_range` on the generator that
/// `rand::thread_rng` hands out: a draw from the half-open range
/// `lo..hi`, which panics only when the range is empty. Nothing more is
/// assumed of the draw than that it lies in the range.
#[verifier::external_body]
fn random_in_range(lo: i32, hi: i32) -> (r: i32)
    requires
        lo < hi,
    ensures
        lo <= r < hi,
{
    rand::thread_rng().gen_range(lo..hi)
}

impl Food {
    /// Places the food at `pos`.
    pub fn new(pos: Position) -> (f: Food)
        ensures
            f.pos == pos,
    {
        Food { pos }
    }

    /// Draws a new anchor uniformly over the in-bounds range of each
    /// axis, independently, and replaces the prior position
    /// unconditionally. No avoidance of the snake's body is attempted:
    /// food may legally land under the snake.
    pub fn relocate(&mut self, field: &Field)
        requires
            field.wf(),
        ensures
            field.holds_cell(final(self).pos),
    {
        let x = random_in_range(0, field.width - CELL);
        let y = random_in_range(0, field.height - CELL);
        self.pos = Position { x, y };
    }
}

} // verus!
