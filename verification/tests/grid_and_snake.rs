use snake_core::grid::{contains_position, is_in_interior, step, Direction, Position};
use snake_core::snake::Snake;

#[test]
fn opposite_maps_each_heading_to_its_reverse() {
    assert_eq!(Direction::Up.opposite(), Direction::Down);
    assert_eq!(Direction::Down.opposite(), Direction::Up);
    assert_eq!(Direction::Left.opposite(), Direction::Right);
    assert_eq!(Direction::Right.opposite(), Direction::Left);
}

#[test]
fn step_moves_one_cell_in_each_direction() {
    let p = Position { x: 3, y: 7 };
    assert_eq!(step(p, Direction::Up), Position { x: 3, y: 8 });
    assert_eq!(step(p, Direction::Down), Position { x: 3, y: 6 });
    assert_eq!(step(p, Direction::Right), Position { x: 4, y: 7 });
    assert_eq!(step(p, Direction::Left), Position { x: 2, y: 7 });
}

#[test]
fn interior_excludes_the_border_ring() {
    assert!(is_in_interior(Position { x: 1, y: 1 }, 20, 20));
    assert!(is_in_interior(Position { x: 18, y: 18 }, 20, 20));
    assert!(!is_in_interior(Position { x: 0, y: 10 }, 20, 20));
    assert!(!is_in_interior(Position { x: 19, y: 10 }, 20, 20));
    assert!(!is_in_interior(Position { x: 10, y: 0 }, 20, 20));
    assert!(!is_in_interior(Position { x: 10, y: 19 }, 20, 20));
}

#[test]
fn contains_position_finds_only_listed_cells() {
    let v = vec![Position { x: 1, y: 2 }, Position { x: 3, y: 4 }];
    assert!(contains_position(&v, Position { x: 3, y: 4 }));
    assert!(!contains_position(&v, Position { x: 4, y: 3 }));
}

#[test]
fn set_heading_rejects_only_the_direct_reverse() {
    let mut s = Snake::new(
        Position { x: 5, y: 5 },
        Position { x: 5, y: 4 },
        Direction::Up,
    );
    s.set_heading(Direction::Down);
    assert_eq!(s.heading(), Direction::Up);
    s.set_heading(Direction::Left);
    assert_eq!(s.heading(), Direction::Left);
    s.set_heading(Direction::Right);
    assert_eq!(s.heading(), Direction::Left);
    s.set_heading(Direction::Up);
    assert_eq!(s.heading(), Direction::Up);
}

#[test]
fn advance_shifts_every_segment_to_its_predecessor() {
    let mut s = Snake::new(
        Position { x: 5, y: 5 },
        Position { x: 5, y: 4 },
        Direction::Up,
    );
    s.grow_at(Position { x: 5, y: 3 });
    s.grow_at(Position { x: 5, y: 2 });
    let before = s.positions();
    let last_tail = s.advance();
    let after = s.positions();
    assert_eq!(after.len(), before.len());
    assert_eq!(after[0], Position { x: 5, y: 6 });
    for i in 1..after.len() {
        assert_eq!(after[i], before[i - 1]);
    }
    assert_eq!(last_tail, Position { x: 5, y: 2 });
}

#[test]
fn grow_appends_one_segment_at_the_given_cell() {
    let mut s = Snake::new(
        Position { x: 5, y: 5 },
        Position { x: 5, y: 4 },
        Direction::Up,
    );
    assert_eq!(s.len(), 2);
    s.grow_at(Position { x: 5, y: 3 });
    assert_eq!(s.len(), 3);
    assert_eq!(s.segment(2), Position { x: 5, y: 3 });
}
