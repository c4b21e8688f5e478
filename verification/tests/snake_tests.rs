use snake_game::snake::Cell;
use snake_game::snake::Direction;
use snake_game::snake::Snake;

fn cell(col: u32, row: u32) -> Cell {
    Cell { col, row }
}

#[test]
fn opposite_of_each_direction() {
    assert_eq!(Direction::Right.opposite(), Direction::Left);
    assert_eq!(Direction::Left.opposite(), Direction::Right);
    assert_eq!(Direction::Up.opposite(), Direction::Down);
    assert_eq!(Direction::Down.opposite(), Direction::Up);
}

#[test]
fn new_snake_initial_state() {
    let s = Snake::new();
    assert_eq!(s.render_cells(), vec![cell(0, 0), cell(0, 1)]);
    assert_eq!(s.direction(), Direction::Right);
    assert_eq!(s.len(), 2);
}

#[test]
fn set_direction_non_opposite_is_taken() {
    let all = [
        Direction::Right,
        Direction::Left,
        Direction::Up,
        Direction::Down,
    ];
    for &current in &all {
        for &requested in &all {
            let mut s = Snake::with_body(vec![cell(5, 5)], current);
            s.set_direction(requested);
            if requested == current.opposite() {
                assert_eq!(s.direction(), current);
            } else {
                assert_eq!(s.direction(), requested);
            }
        }
    }
}

#[test]
fn set_direction_opposite_is_rejected() {
    let mut s = Snake::with_body(vec![cell(5, 5)], Direction::Up);
    s.set_direction(Direction::Down);
    assert_eq!(s.direction(), Direction::Up);
}

#[test]
fn set_direction_same_direction_is_kept() {
    let mut s = Snake::with_body(vec![cell(5, 5)], Direction::Up);
    s.set_direction(Direction::Up);
    assert_eq!(s.direction(), Direction::Up);
}

#[test]
fn advance_preserves_body_length() {
    let mut s = Snake::new();
    for _ in 0..10 {
        assert!(s.advance());
        assert_eq!(s.len(), 2);
    }
    let mut long = Snake::with_body(
        vec![cell(10, 10), cell(9, 10), cell(8, 10), cell(7, 10)],
        Direction::Right,
    );
    assert!(long.advance());
    assert_eq!(long.len(), 4);
}

#[test]
fn is_self_colliding_iff_occupied() {
    let s = Snake::with_body(vec![cell(3, 4), cell(3, 5), cell(4, 5)], Direction::Up);
    assert!(s.is_self_colliding(cell(3, 4)));
    assert!(s.is_self_colliding(cell(3, 5)));
    assert!(s.is_self_colliding(cell(4, 5)));
    assert!(!s.is_self_colliding(cell(4, 4)));
    assert!(!s.is_self_colliding(cell(0, 0)));
    assert!(!s.is_self_colliding(cell(3, 6)));
}

#[test]
fn scenario_advance_right() {
    let mut s = Snake::with_body(vec![cell(0, 0), cell(0, 1)], Direction::Right);
    assert!(s.advance());
    assert_eq!(s.render_cells(), vec![cell(1, 0), cell(0, 0)]);
}

#[test]
fn scenario_rejected_reversal_then_collision() {
    let mut s = Snake::with_body(vec![cell(1, 0), cell(0, 0)], Direction::Left);
    s.set_direction(Direction::Right);
    assert_eq!(s.direction(), Direction::Left);
    assert!(!s.advance());
    assert_eq!(s.render_cells(), vec![cell(1, 0), cell(0, 0)]);
}

#[test]
fn advance_onto_own_tail_is_refused() {
    let mut s = Snake::with_body(
        vec![cell(1, 0), cell(1, 1), cell(0, 1), cell(0, 0)],
        Direction::Left,
    );
    assert!(!s.advance());
    assert_eq!(
        s.render_cells(),
        vec![cell(1, 0), cell(1, 1), cell(0, 1), cell(0, 0)]
    );
}

#[test]
fn render_cells_is_idempotent() {
    let s = Snake::with_body(vec![cell(2, 3), cell(2, 4), cell(2, 5)], Direction::Up);
    let first = s.render_cells();
    let second = s.render_cells();
    assert_eq!(first, second);
    assert_eq!(first, vec![cell(2, 3), cell(2, 4), cell(2, 5)]);
}

#[test]
fn render_cells_unchanged_by_set_direction() {
    let mut s = Snake::new();
    let before = s.render_cells();
    s.set_direction(Direction::Down);
    assert_eq!(s.render_cells(), before);
}

#[test]
fn boundary_left_edge_is_a_wall() {
    let mut s = Snake::with_body(vec![cell(0, 5)], Direction::Left);
    assert!(!s.advance());
    assert_eq!(s.render_cells(), vec![cell(0, 5)]);
    assert!(!s.advance());
    assert_eq!(s.render_cells(), vec![cell(0, 5)]);
}

#[test]
fn boundary_top_edge_is_a_wall() {
    let mut s = Snake::with_body(vec![cell(5, 0)], Direction::Up);
    assert!(!s.advance());
    assert_eq!(s.render_cells(), vec![cell(5, 0)]);
}

#[test]
fn boundary_right_edge_is_a_wall() {
    let mut s = Snake::with_body(vec![cell(29, 5)], Direction::Right);
    assert!(!s.advance());
    assert_eq!(s.render_cells(), vec![cell(29, 5)]);
}

#[test]
fn boundary_bottom_edge_is_a_wall() {
    let mut s = Snake::with_body(vec![cell(5, 29)], Direction::Down);
    assert!(!s.advance());
    assert_eq!(s.render_cells(), vec![cell(5, 29)]);
}
