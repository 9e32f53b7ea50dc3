//! Grid geometry: positions, headings, the playing field, and the
//! cell-overlap test that every collision rule is built on.

use vstd::prelude::*;

verus! {

/// Edge length of one grid cell, in the same units as positions.
/// Movement deltas and collision hit-boxes both use this constant.
pub const CELL: i32 = 15;

/// A pair of integer grid coordinates. Each body segment and the food
/// occupy the axis-aligned `CELL` by `CELL` square whose top-left corner
/// is this point.
#[derive(Clone, Copy, PartialEq, Eq, Structural, Debug)]
pub struct Position {
    pub x: i32,
    pub y: i32,
}

/// The snake's heading. Exactly one is active at a time; there is no
/// diagonal or stopped state.
#[derive(Clone, Copy, PartialEq, Eq, Structural, Debug)]
pub enum Direction {
    Up,
    Down,
    Right,
    Left,
}

/// The heading directly opposite `d`: the one a moving snake may not
/// reverse into.
pub open spec fn opposite(d: Direction) -> Direction {
    match d {
        Direction::Up => Direction::Down,
        Direction::Down => Direction::Up,
        Direction::Right => Direction::Left,
        Direction::Left => Direction::Right,
    }
}

impl Direction {
    /// The heading directly opposite this one.
    pub fn opposite_of(self) -> (r: Direction)
        ensures
            r == opposite(self),
    {
        match self {
            Direction::Up => Direction::Down,
            Direction::Down => Direction::Up,
            Direction::Right => Direction::Left,
            Direction::Left => Direction::Right,
        }
    }
}

/// Horizontal displacement of one step in heading `d`.
pub open spec fn step_dx(d: Direction) -> int {
    match d {
        Direction::Right => CELL as int,
        Direction::Left => -(CELL as int),
        _ => 0,
    }
}

/// Vertical displacement of one step in heading `d`.
pub open spec fn step_dy(d: Direction) -> int {
    match d {
        Direction::Down => CELL as int,
        Direction::Up => -(CELL as int),
        _ => 0,
    }
}

/// Strict overlap of the two `CELL` by `CELL` squares anchored at `a`
/// and `b`: the half-open intervals `[a.x, a.x + CELL)` and
/// `[b.x, b.x + CELL)` intersect, and likewise on the y axis. Squares
/// that merely touch along an edge do not overlap.
pub open spec fn cells_overlap(a: Position, b: Position) -> bool {
    &&& a.x - b.x < CELL
    &&& b.x - a.x < CELL
    &&& a.y - b.y < CELL
    &&& b.y - a.y < CELL
}

/// Decides `cells_overlap` on concrete positions.
pub fn cells_overlap_at(a: Position, b: Position) -> (r: bool)
    ensures
        r == cells_overlap(a, b),
{
    let ax = a.x as i64;
    let ay = a.y as i64;
    let bx = b.x as i64;
    let by = b.y as i64;
    let cell = CELL as i64;
    ax - bx < cell && bx - ax < cell && ay - by < cell && by - ay < cell
}

/// Two cells whose anchors differ by a whole multiple of `CELL` on each
/// axis overlap exactly when they coincide. On a body laid out on the
/// step grid this makes strict overlap the same test as equality of
/// cells: adjacent-but-non-overlapping cells never register.
pub proof fn lemma_grid_overlap_is_equality(a: Position, b: Position)
    requires
        (a.x - b.x) % (CELL as int) == 0,
        (a.y - b.y) % (CELL as int) == 0,
    ensures
        cells_overlap(a, b) <==> a == b,
{
    if cells_overlap(a, b) {
        assert(a.x == b.x && a.y == b.y);
        assert(a == b);
    }
}

/// The rectangular playable area: valid x coordinates span `[0, width]`
/// and valid y coordinates span `[0, height]`.
#[derive(Clone, Copy, PartialEq, Eq, Structural, Debug)]
pub struct Field {
    pub width: i32,
    pub height: i32,
}

impl Field {
    /// The field is large enough to hold at least one whole cell, so a
    /// food cell always has somewhere in-bounds to land.
    pub open spec fn wf(self) -> bool {
        CELL < self.width && CELL < self.height
    }

    /// `p` lies inside the playable area: a head here does not trigger a
    /// boundary collision. Coordinates exactly at the boundary are
    /// in-bounds.
    pub open spec fn contains(self, p: Position) -> bool {
        0 <= p.x <= self.width && 0 <= p.y <= self.height
    }

    /// `p` is a legal food anchor: the whole food cell lies strictly
    /// inside the field, matching the range food is relocated over.
    pub open spec fn holds_cell(self, p: Position) -> bool {
        0 <= p.x < self.width - CELL && 0 <= p.y < self.height - CELL
    }
}

} // verus!
