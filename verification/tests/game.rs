use snake::apple::Apple;
use snake::direction::Direction;
use snake::geometry::{is_in_bounds, Vector, CELL_SIZE, GRID_HEIGHT, GRID_WIDTH};
use snake::snake::{AdvanceResult, GameOverReason, Segment, Snake};

fn positions(s: &Snake) -> Vec<(i32, i32)> {
    let mut out = vec![(s.head().pos.x, s.head().pos.y)];
    for seg in s.body() {
        out.push((seg.pos.x, seg.pos.y));
    }
    out
}

#[test]
fn invert_is_involutive_for_all_directions() {
    for d in [
        Direction::Up,
        Direction::Down,
        Direction::Left,
        Direction::Right,
    ] {
        assert_eq!(d.invert().invert(), d);
    }
}

#[test]
fn invert_swaps_opposites() {
    assert_eq!(Direction::Up.invert(), Direction::Down);
    assert_eq!(Direction::Down.invert(), Direction::Up);
    assert_eq!(Direction::Left.invert(), Direction::Right);
    assert_eq!(Direction::Right.invert(), Direction::Left);
}

#[test]
fn scallar_gives_unit_vectors() {
    assert_eq!(Direction::Up.scallar(), Vector::new(0, -1));
    assert_eq!(Direction::Down.scallar(), Vector::new(0, 1));
    assert_eq!(Direction::Left.scallar(), Vector::new(-1, 0));
    assert_eq!(Direction::Right.scallar(), Vector::new(1, 0));
}

#[test]
fn step_moves_one_cell_along_each_axis() {
    let p = Vector::new(7, 9);
    assert_eq!(p.add(&Direction::Up.scallar()), Vector::new(7, 8));
    assert_eq!(Direction::Up.step(&p), Vector::new(7, 8));
    assert_eq!(Direction::Down.step(&p), Vector::new(7, 10));
    assert_eq!(Direction::Left.step(&p), Vector::new(6, 9));
    assert_eq!(Direction::Right.step(&p), Vector::new(8, 9));
}

#[test]
fn new_snake_trails_behind_the_head() {
    let s = Snake::new(&Vector::new(10, 5), Direction::Right, 5);
    assert_eq!(
        positions(&s),
        vec![(10, 5), (9, 5), (8, 5), (7, 5), (6, 5)]
    );
    assert_eq!(s.body().len(), 4);
}

#[test]
fn new_snake_trails_upward_when_moving_down() {
    let s = Snake::new(&Vector::new(3, 4), Direction::Down, 3);
    assert_eq!(positions(&s), vec![(3, 4), (3, 3), (3, 2)]);
}

#[test]
fn advance_moves_head_and_drops_tail() {
    let mut s = Snake::new(&Vector::new(10, 5), Direction::Right, 5);
    let apple = Apple::new(Vector::new(40, 30));
    let r = s.advance(&apple);
    assert_eq!(r, AdvanceResult::Continue);
    assert_eq!(
        positions(&s),
        vec![(11, 5), (10, 5), (9, 5), (8, 5), (7, 5)]
    );
}

#[test]
fn advance_onto_apple_grows_and_signals() {
    let mut s = Snake::new(&Vector::new(10, 5), Direction::Right, 5);
    let apple = Apple::new(Vector::new(11, 5));
    let r = s.advance(&apple);
    assert_eq!(r, AdvanceResult::AteApple);
    assert_eq!(
        positions(&s),
        vec![(11, 5), (10, 5), (9, 5), (8, 5), (7, 5), (6, 5)]
    );
}

#[test]
fn advance_off_the_grid_is_out_of_bounds() {
    let mut s = Snake::new(&Vector::new(0, 0), Direction::Left, 1);
    let apple = Apple::new(Vector::new(40, 30));
    let r = s.advance(&apple);
    assert_eq!(r, AdvanceResult::GameOver(GameOverReason::OutOfBounds));
    assert_eq!(s.head().pos, Vector::new(-1, 0));
}

#[test]
fn advance_into_own_body_is_self_collision() {
    // A tight S-turn: after three ticks the head lands on a cell the
    // body still occupies.
    let mut s = Snake::new(&Vector::new(10, 5), Direction::Right, 5);
    let apple = Apple::new(Vector::new(40, 30));
    s.set_direction(Direction::Up);
    assert_eq!(s.advance(&apple), AdvanceResult::Continue);
    s.set_direction(Direction::Left);
    assert_eq!(s.advance(&apple), AdvanceResult::Continue);
    s.set_direction(Direction::Down);
    let r = s.advance(&apple);
    assert_eq!(r, AdvanceResult::GameOver(GameOverReason::SelfCollision));
}

#[test]
fn single_segment_snake_cannot_self_collide() {
    let mut s = Snake::new(&Vector::new(5, 5), Direction::Right, 1);
    let apple = Apple::new(Vector::new(6, 5));
    // Eating in place doubles the snake onto adjacent cells; neither
    // tick may report a collision.
    assert_eq!(s.advance(&apple), AdvanceResult::AteApple);
    let apple = Apple::new(Vector::new(40, 30));
    assert_eq!(s.advance(&apple), AdvanceResult::Continue);
}

#[test]
fn reversal_request_is_ignored() {
    let mut s = Snake::new(&Vector::new(10, 5), Direction::Right, 5);
    s.set_direction(Direction::Left);
    assert_eq!(s.direction, Direction::Right);
}

#[test]
fn other_direction_requests_are_applied() {
    let mut s = Snake::new(&Vector::new(10, 5), Direction::Right, 5);
    s.set_direction(Direction::Up);
    assert_eq!(s.direction, Direction::Up);
    s.set_direction(Direction::Right);
    assert_eq!(s.direction, Direction::Right);
}

#[test]
fn bounds_are_loose_by_one_cell() {
    // The boundary test deliberately admits positions exactly at the
    // grid size.
    assert!(is_in_bounds(&Vector::new(0, 0)));
    assert!(is_in_bounds(&Vector::new(GRID_WIDTH, GRID_HEIGHT)));
    assert!(!is_in_bounds(&Vector::new(GRID_WIDTH + 1, 0)));
    assert!(!is_in_bounds(&Vector::new(0, GRID_HEIGHT + 1)));
    assert!(!is_in_bounds(&Vector::new(-1, 0)));
    assert!(!is_in_bounds(&Vector::new(0, -1)));
}

#[test]
fn random_cells_lie_on_the_visible_grid() {
    for _ in 0..200 {
        let v = Vector::random();
        assert!(0 <= v.x && v.x < GRID_WIDTH);
        assert!(0 <= v.y && v.y < GRID_HEIGHT);
    }
}

#[test]
fn respawned_apples_lie_on_the_visible_grid() {
    for _ in 0..200 {
        let a = Apple::respawn();
        assert!(0 <= a.pos.x && a.pos.x < GRID_WIDTH);
        assert!(0 <= a.pos.y && a.pos.y < GRID_HEIGHT);
    }
}

#[test]
fn cell_rect_scales_by_the_cell_size() {
    let r = Vector::new(3, 4).cell_rect();
    assert_eq!(r, (30, 40, CELL_SIZE, CELL_SIZE));
    let r = Vector::new(0, 0).cell_rect();
    assert_eq!(r, (0, 0, CELL_SIZE, CELL_SIZE));
}

#[test]
fn segment_and_apple_wrap_positions() {
    let seg = Segment::new(Vector::new(2, 3));
    assert_eq!(seg.pos, Vector::new(2, 3));
    let apple = Apple::new(Vector::new(4, 6));
    assert_eq!(apple.pos, Vector::new(4, 6));
}

#[test]
fn grid_dimensions_follow_window_and_cell_size() {
    assert_eq!(GRID_WIDTH, 800 / CELL_SIZE as i32);
    assert_eq!(GRID_HEIGHT, 600 / CELL_SIZE as i32);
}
