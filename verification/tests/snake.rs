use snake_game::snake::{Direction, Snake};

/// A snake on (5,7), (5,6), (5,5) from tail to head, facing up.
fn upright() -> Snake {
    let mut s = Snake::new(5, 7);
    s.grow_on_next_advance();
    s.advance(Some(Direction::Up));
    s.grow_on_next_advance();
    s.advance(Some(Direction::Up));
    s
}

#[test]
fn opposite_swaps_pairs() {
    assert_eq!(Direction::Up.opposite(), Direction::Down);
    assert_eq!(Direction::Down.opposite(), Direction::Up);
    assert_eq!(Direction::Left.opposite(), Direction::Right);
    assert_eq!(Direction::Right.opposite(), Direction::Left);
}

#[test]
fn opposite_twice_is_identity() {
    for d in [Direction::Up, Direction::Down, Direction::Left, Direction::Right] {
        assert_eq!(d.opposite().opposite(), d);
    }
}

#[test]
fn new_snake_is_one_cell_facing_right() {
    let s = Snake::new(2, 2);
    assert_eq!(s.len(), 1);
    assert_eq!(s.head_position(), (2, 2));
    assert_eq!(s.head_direction(), Direction::Right);
    assert!(!s.is_growing());
    assert_eq!(s.segments(), vec![(2, 2)]);
}

#[test]
fn advance_keeps_length_without_growth() {
    let mut s = Snake::new(2, 2);
    s.advance(None);
    assert_eq!(s.len(), 1);
    assert_eq!(s.segments(), vec![(3, 2)]);
    s.advance(Some(Direction::Down));
    assert_eq!(s.len(), 1);
    assert_eq!(s.segments(), vec![(3, 3)]);
    assert_eq!(s.head_direction(), Direction::Down);
}

#[test]
fn advance_adds_one_cell_when_growth_is_pending() {
    let mut s = Snake::new(2, 2);
    s.grow_on_next_advance();
    assert!(s.is_growing());
    s.advance(None);
    assert_eq!(s.len(), 2);
    assert_eq!(s.segments(), vec![(2, 2), (3, 2)]);
    assert!(!s.is_growing());
    s.advance(None);
    assert_eq!(s.len(), 2);
    assert_eq!(s.segments(), vec![(3, 2), (4, 2)]);
}

#[test]
fn growth_asked_twice_counts_once() {
    let mut s = Snake::new(2, 2);
    s.grow_on_next_advance();
    s.grow_on_next_advance();
    s.advance(None);
    s.advance(None);
    assert_eq!(s.len(), 2);
}

#[test]
fn advance_moves_one_cell_each_way() {
    let mut s = Snake::new(10, 10);
    s.advance(Some(Direction::Up));
    assert_eq!(s.head_position(), (10, 9));
    s.advance(Some(Direction::Left));
    assert_eq!(s.head_position(), (9, 9));
    s.advance(Some(Direction::Down));
    assert_eq!(s.head_position(), (9, 10));
    s.advance(Some(Direction::Right));
    assert_eq!(s.head_position(), (10, 10));
}

#[test]
fn advance_does_not_follow_a_reversal() {
    let mut s = Snake::new(2, 2);
    s.advance(Some(Direction::Left));
    assert_eq!(s.head_direction(), Direction::Right);
    assert_eq!(s.head_position(), (3, 2));
}

#[test]
fn next_head_changes_nothing() {
    let s = upright();
    assert_eq!(s.next_head(None), (5, 4));
    assert_eq!(s.next_head(Some(Direction::Left)), (4, 5));
    assert_eq!(s.next_head(Some(Direction::Right)), (6, 5));
    assert_eq!(s.next_head(Some(Direction::Down)), (5, 6));
    assert_eq!(s.segments(), vec![(5, 7), (5, 6), (5, 5)]);
    assert_eq!(s.head_direction(), Direction::Up);
}

#[test]
fn step_up_reports_no_collision() {
    let s = upright();
    assert_eq!(s.segments(), vec![(5, 7), (5, 6), (5, 5)]);
    assert_eq!(s.head_direction(), Direction::Up);
    let (x, y) = s.next_head(None);
    assert_eq!((x, y), (5, 4));
    assert!(!s.overlap(x, y));
}

#[test]
fn overlap_leaves_out_the_tail_that_is_about_to_go() {
    let s = upright();
    assert!(!s.overlap(5, 7));
    assert!(s.overlap(5, 6));
    assert!(s.overlap(5, 5));
    assert!(s.occupies(5, 7));
}

#[test]
fn overlap_counts_the_tail_while_growth_is_pending() {
    let mut s = upright();
    s.grow_on_next_advance();
    assert!(s.overlap(5, 7));
    assert!(s.overlap(5, 6));
    assert!(!s.overlap(5, 4));
}

#[test]
fn occupies_counts_every_cell() {
    let s = upright();
    assert!(s.occupies(5, 5));
    assert!(s.occupies(5, 6));
    assert!(s.occupies(5, 7));
    assert!(!s.occupies(5, 4));
    assert!(!s.occupies(7, 5));
}

#[test]
fn a_snake_of_one_cell_overlaps_nothing_unless_growing() {
    let mut s = Snake::new(4, 4);
    assert!(!s.overlap(4, 4));
    assert!(s.occupies(4, 4));
    s.grow_on_next_advance();
    assert!(s.overlap(4, 4));
}
