use snake_core::{Direction, Field, Food, Outcome, Position, Snake, CELL};

fn pos(x: i32, y: i32) -> Position {
    Position { x, y }
}

fn field() -> Field {
    Field { width: 800, height: 600 }
}

#[test]
fn heading_cannot_reverse() {
    let cases = [
        (Direction::Up, Direction::Down),
        (Direction::Down, Direction::Up),
        (Direction::Left, Direction::Right),
        (Direction::Right, Direction::Left),
    ];
    for (current, opposite) in cases {
        let mut s = Snake { body: vec![pos(100, 100)], direction: current, points: 0 };
        s.set_direction(opposite);
        assert_eq!(s.direction, current);
    }
}

#[test]
fn heading_turns_are_honoured() {
    let mut s = Snake::new(pos(100, 100));
    assert_eq!(s.direction, Direction::Right);
    s.set_direction(Direction::Up);
    assert_eq!(s.direction, Direction::Up);
    s.set_direction(Direction::Left);
    assert_eq!(s.direction, Direction::Left);
    s.set_direction(Direction::Down);
    assert_eq!(s.direction, Direction::Down);
}

#[test]
fn step_preserves_length() {
    let mut s = Snake {
        body: vec![pos(50, 50), pos(35, 50), pos(20, 50)],
        direction: Direction::Right,
        points: 0,
    };
    s.step_forward();
    assert_eq!(s.body.len(), 3);
    let mut single = Snake::new(pos(0, 0));
    single.step_forward();
    assert_eq!(single.body.len(), 1);
}

#[test]
fn grow_adds_exactly_one() {
    let mut s = Snake {
        body: vec![pos(50, 50), pos(35, 50)],
        direction: Direction::Up,
        points: 0,
    };
    s.grow();
    assert_eq!(s.body.len(), 3);
    assert_eq!(s.body[0], pos(50, 50 - CELL));
    assert_eq!(s.body[1], pos(50, 50));
    assert_eq!(s.body[2], pos(35, 50));
}

#[test]
fn step_offsets_head_one_cell_each_heading() {
    let cases = [
        (Direction::Up, pos(100, 100 - CELL)),
        (Direction::Down, pos(100, 100 + CELL)),
        (Direction::Left, pos(100 - CELL, 100)),
        (Direction::Right, pos(100 + CELL, 100)),
    ];
    for (heading, expected) in cases {
        let mut s = Snake { body: vec![pos(100, 100)], direction: heading, points: 0 };
        s.step_forward();
        assert_eq!(s.body[0], expected);
    }
}

#[test]
fn self_collision_only_on_coinciding_cells() {
    // Head coincides with a non-head segment: detected.
    let hit = Snake {
        body: vec![pos(35, 50), pos(50, 50), pos(35, 50)],
        direction: Direction::Left,
        points: 0,
    };
    assert!(hit.head_hits_body());

    // Adjacent cells, touching along an edge: never detected.
    let adjacent = Snake {
        body: vec![pos(35, 50), pos(50, 50), pos(65, 50), pos(65, 65)],
        direction: Direction::Left,
        points: 0,
    };
    assert!(!adjacent.head_hits_body());

    // The head is never tested against itself.
    let lone = Snake::new(pos(10, 10));
    assert!(!lone.head_hits_body());
}

#[test]
fn boundary_is_inclusive_at_the_edges() {
    // Exactly at the boundary: in-bounds, no fatal outcome.
    let mut on_edge = Snake { body: vec![pos(800, 600)], direction: Direction::Right, points: 0 };
    let mut f = Food::new(pos(200, 200));
    assert_eq!(on_edge.resolve_collisions(&mut f, &field()), Outcome::Continue);

    let mut at_origin = Snake { body: vec![pos(0, 0)], direction: Direction::Right, points: 0 };
    assert_eq!(at_origin.resolve_collisions(&mut f, &field()), Outcome::Continue);

    // Strictly outside on either axis, either side: fatal.
    let outside = [pos(801, 100), pos(-1, 100), pos(100, 601), pos(100, -1)];
    for p in outside {
        let mut s = Snake { body: vec![p], direction: Direction::Right, points: 0 };
        assert_eq!(s.resolve_collisions(&mut f, &field()), Outcome::BoundaryCollided);
    }
}

#[test]
fn feeding_scores_and_relocates_in_bounds() {
    let mut s = Snake { body: vec![pos(100, 100)], direction: Direction::Right, points: 0 };
    let mut f = Food::new(pos(110, 100));
    s.step_forward();
    assert_eq!(s.body[0], pos(115, 100));
    let r = s.resolve_collisions(&mut f, &field());
    assert_eq!(r, Outcome::Fed);
    assert_eq!(s.points, 1);
    assert_eq!(s.body.len(), 2);
    assert!(0 <= f.pos.x && f.pos.x < 800 - CELL);
    assert!(0 <= f.pos.y && f.pos.y < 600 - CELL);

    // A second consumption scores again and lands in bounds again.
    f.pos = s.body[0];
    let r2 = s.resolve_collisions(&mut f, &field());
    assert_eq!(r2, Outcome::Fed);
    assert_eq!(s.points, 2);
    assert_eq!(s.body.len(), 3);
    assert!(0 <= f.pos.x && f.pos.x < 800 - CELL);
    assert!(0 <= f.pos.y && f.pos.y < 600 - CELL);
}

#[test]
fn scenario_single_step_right() {
    let mut s = Snake { body: vec![pos(100, 100)], direction: Direction::Right, points: 0 };
    s.step_forward();
    assert_eq!(s.body, vec![pos(115, 100)]);
    assert_eq!(s.body.len(), 1);
}

#[test]
fn feeding_needs_strict_overlap() {
    // Stepping off a cell the head shared with the food leaves the two
    // cells touching along an edge, and touching cells do not overlap:
    // no feeding happens.
    let mut s = Snake { body: vec![pos(100, 100)], direction: Direction::Right, points: 0 };
    let mut f = Food::new(pos(100, 100));
    s.step_forward();
    let r = s.resolve_collisions(&mut f, &field());
    assert_eq!(r, Outcome::Continue);
    assert_eq!(s.points, 0);
    assert_eq!(s.body.len(), 1);
    assert_eq!(f.pos, pos(100, 100));
}

#[test]
fn scenario_self_collision_is_fatal() {
    let mut s = Snake {
        body: vec![pos(50, 50), pos(35, 50), pos(20, 50)],
        direction: Direction::Left,
        points: 0,
    };
    let mut f = Food::new(pos(200, 200));
    s.step_forward();
    assert_eq!(s.body[0], pos(35, 50));
    let r = s.resolve_collisions(&mut f, &field());
    assert_eq!(r, Outcome::SelfCollided);
}

#[test]
fn scenario_boundary_collision_is_fatal() {
    let mut s = Snake { body: vec![pos(800, 100)], direction: Direction::Right, points: 0 };
    let mut f = Food::new(pos(200, 200));
    s.step_forward();
    assert_eq!(s.body[0], pos(815, 100));
    let r = s.resolve_collisions(&mut f, &field());
    assert_eq!(r, Outcome::BoundaryCollided);
}

#[test]
fn relocation_always_lands_in_bounds() {
    let fld = field();
    let mut f = Food::new(pos(130, 130));
    for _ in 0..200 {
        f.relocate(&fld);
        assert!(0 <= f.pos.x && f.pos.x < fld.width - CELL);
        assert!(0 <= f.pos.y && f.pos.y < fld.height - CELL);
    }
}

#[test]
fn relocation_on_a_minimal_field_is_pinned() {
    // A field one unit wider and taller than a cell leaves a single
    // legal anchor, so relocation must land exactly there.
    let tiny = Field { width: CELL + 1, height: CELL + 1 };
    let mut f = Food::new(pos(130, 130));
    f.relocate(&tiny);
    assert_eq!(f.pos, pos(0, 0));
}

#[test]
fn fresh_snake_defaults() {
    let s = Snake::new(pos(100, 100));
    assert_eq!(s.body, vec![pos(100, 100)]);
    assert_eq!(s.direction, Direction::Right);
    assert_eq!(s.points, 0);
}
