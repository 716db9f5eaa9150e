use std::collections::VecDeque;

use snake_game::food::place_food;
use snake_game::geometry::Direction;
use snake_game::geometry::Point;

fn occupied_of(cells: &[(i32, i32)]) -> VecDeque<Point> {
    cells.iter().map(|&(x, y)| Point { x, y }).collect()
}

#[test]
fn single_free_cell_is_found_deterministically() {
    let occupied = occupied_of(&[(0, 0), (1, 0), (0, 1)]);
    for _ in 0..20 {
        assert_eq!(place_food(2, 2, &occupied), Some(Point { x: 1, y: 1 }));
    }
}

#[test]
fn full_arena_reports_no_free_cell() {
    let occupied = occupied_of(&[(0, 0), (1, 0)]);
    assert_eq!(place_food(2, 1, &occupied), None);
}

#[test]
fn chosen_cell_is_in_bounds_and_free() {
    let occupied = occupied_of(&[(1, 1), (1, 0), (0, 1)]);
    for _ in 0..100 {
        let p = place_food(3, 3, &occupied).expect("free cells exist");
        assert!(0 <= p.x && p.x < 3 && 0 <= p.y && p.y < 3);
        assert!(!occupied.contains(&p));
    }
}

#[test]
fn empty_occupancy_accepts_any_cell_of_a_one_cell_arena() {
    let occupied = occupied_of(&[]);
    assert_eq!(place_food(1, 1, &occupied), Some(Point { x: 0, y: 0 }));
}

#[test]
fn opposites_are_exactly_the_reversed_pairs() {
    let all = [Direction::Up, Direction::Down, Direction::Left, Direction::Right];
    for a in all {
        for b in all {
            let expected = matches!(
                (a, b),
                (Direction::Up, Direction::Down)
                    | (Direction::Down, Direction::Up)
                    | (Direction::Left, Direction::Right)
                    | (Direction::Right, Direction::Left)
            );
            assert_eq!(a.is_opposite(&b), expected, "{a:?} vs {b:?}");
        }
    }
}
