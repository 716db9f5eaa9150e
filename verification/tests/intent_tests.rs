use std::collections::VecDeque;

use snake_game::game::GameState;
use snake_game::game::GameStatus;
use snake_game::geometry::Direction;
use snake_game::geometry::Point;
use snake_game::intent::apply_intent;
use snake_game::intent::Intent;

fn game_over_state() -> GameState {
    let mut game = GameState {
        snake: [(19, 5), (18, 5), (17, 5)]
            .iter()
            .map(|&(x, y)| Point { x, y })
            .collect::<VecDeque<Point>>(),
        direction: Direction::Right,
        next_direction: Direction::Right,
        food: Point { x: 0, y: 0 },
        score: 0,
        status: GameStatus::Playing,
        game_width: 20,
        game_height: 10,
        waiting_for_start: false,
    };
    game.update();
    assert_eq!(game.status, GameStatus::GameOver);
    game
}

#[test]
fn quit_stops_the_loop_and_changes_nothing() {
    let mut game = GameState::new(20, 10);
    let before: Vec<Point> = game.snake.iter().copied().collect();
    let keep_running = apply_intent(&mut game, Intent::Quit);
    assert!(!keep_running);
    assert_eq!(game.snake.iter().copied().collect::<Vec<_>>(), before);
    assert_eq!(game.status, GameStatus::Playing);
}

#[test]
fn turn_intent_buffers_direction() {
    let mut game = GameState::new(20, 10);
    assert!(apply_intent(&mut game, Intent::Turn(Direction::Up)));
    assert_eq!(game.next_direction, Direction::Up);
    assert!(!game.waiting_for_start);
}

#[test]
fn pause_intent_ignored_before_first_move() {
    let mut game = GameState::new(20, 10);
    assert!(apply_intent(&mut game, Intent::TogglePause));
    assert_eq!(game.status, GameStatus::Playing);
    assert!(game.waiting_for_start);
}

#[test]
fn pause_intent_toggles_once_running() {
    let mut game = GameState::new(20, 10);
    apply_intent(&mut game, Intent::Turn(Direction::Right));
    assert!(apply_intent(&mut game, Intent::TogglePause));
    assert_eq!(game.status, GameStatus::Paused);
    assert!(apply_intent(&mut game, Intent::TogglePause));
    assert_eq!(game.status, GameStatus::Playing);
}

#[test]
fn restart_ignored_while_playing() {
    let mut game = GameState::new(20, 10);
    apply_intent(&mut game, Intent::Turn(Direction::Right));
    game.update();
    let before: Vec<Point> = game.snake.iter().copied().collect();
    assert!(apply_intent(&mut game, Intent::Restart));
    assert_eq!(game.snake.iter().copied().collect::<Vec<_>>(), before);
    assert_eq!(game.status, GameStatus::Playing);
}

#[test]
fn restart_after_game_over_yields_fresh_game() {
    let mut game = game_over_state();
    assert!(apply_intent(&mut game, Intent::Restart));
    assert_eq!(game.status, GameStatus::Playing);
    assert_eq!(game.score, 0);
    assert!(game.waiting_for_start);
    assert_eq!(game.direction, Direction::Right);
    assert_eq!(game.next_direction, Direction::Right);
    assert_eq!(game.game_width, 20);
    assert_eq!(game.game_height, 10);
    let segs: Vec<Point> = game.snake.iter().copied().collect();
    assert_eq!(
        segs,
        vec![Point { x: 10, y: 5 }, Point { x: 9, y: 5 }, Point { x: 8, y: 5 }]
    );
    assert!(!segs.contains(&game.food));
}
