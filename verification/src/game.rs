//! The simulation state machine: snake body, direction buffering, food,
//! score, and the Playing / Paused / GameOver lifecycle.

use vstd::prelude::*;
use std::collections::VecDeque;
use crate::geometry::Direction;
use crate::geometry::Point;
use crate::geometry::adjacent;
use crate::geometry::in_bounds;
use crate::geometry::lemma_distinct_points_fit;
use crate::geometry::spec_step;
use crate::food::place_food;
use crate::food::contains_point;

verus! {

/// Points awarded for each piece of food eaten.
pub const FOOD_SCORE: u32 = 10;

/// Largest arena area a simulation accepts; keeps the score within `u32`
/// even when the snake fills the whole arena.
pub const MAX_ARENA_AREA: i32 = 400_000_000;

/// Lifecycle of one simulation. GameOver is terminal: only constructing a
/// fresh simulation (restart) leaves it.
#[derive(Clone, Copy, Debug, PartialEq, Eq, Structural)]
pub enum GameStatus {
    Playing,
    Paused,
    GameOver,
}

/// All state of one game in a fixed `game_width x game_height` arena.
///
/// The snake is kept head first; `direction` is the direction actually
/// applied on the last tick, `next_direction` the buffered one that the next
/// tick will apply, so several key presses within one frame can never fold
/// the snake back onto its own neck.
pub struct GameState {
    pub snake: VecDeque<Point>,
    pub direction: Direction,
    pub next_direction: Direction,
    pub food: Point,
    pub score: u32,
    pub status: GameStatus,
    pub game_width: i32,
    pub game_height: i32,
    pub waiting_for_start: bool,
}

/// The snake a fresh simulation starts with: three cells, horizontally
/// centered, head to the right.
pub open spec fn initial_snake(w: int, h: int) -> Seq<Point> {
    let cx = w / 2;
    let cy = h / 2;
    seq![
        Point { x: cx as i32, y: cy as i32 },
        Point { x: (cx - 1) as i32, y: cy as i32 },
        Point { x: (cx - 2) as i32, y: cy as i32 },
    ]
}

impl GameState {
    /// The invariant every reachable simulation state satisfies: segments in
    /// bounds and pairwise distinct, the body connected cell to cell, the
    /// food in bounds and (until the game is over) off the snake, the
    /// buffered direction never the reverse of the applied one, and the
    /// score in lockstep with how much the snake has grown.
    pub open spec fn wf(self) -> bool {
        &&& 4 <= self.game_width
        &&& 1 <= self.game_height
        &&& self.game_width * self.game_height <= MAX_ARENA_AREA
        &&& self.snake@.no_duplicates()
        &&& forall|i: int|
            0 <= i < self.snake@.len() ==> in_bounds(
                #[trigger] self.snake@[i],
                self.game_width as int,
                self.game_height as int,
            )
        &&& forall|i: int|
            0 <= i && i + 1 < self.snake@.len() ==> adjacent(
                #[trigger] self.snake@[i],
                self.snake@[i + 1],
            )
        &&& in_bounds(self.food, self.game_width as int, self.game_height as int)
        &&& (self.status != GameStatus::GameOver ==> !self.snake@.contains(self.food))
        &&& self.next_direction != self.direction.spec_opposite()
        &&& self.score % FOOD_SCORE == 0
        &&& self.snake@.len() == 3 + self.score / FOOD_SCORE
    }

    /// Everything but the two direction fields and the lifecycle status:
    /// what an ignored intent or a paused tick must leave untouched.
    pub open spec fn same_board(self, other: GameState) -> bool {
        &&& self.snake@ == other.snake@
        &&& self.food == other.food
        &&& self.score == other.score
        &&& self.game_width == other.game_width
        &&& self.game_height == other.game_height
        &&& self.waiting_for_start == other.waiting_for_start
    }

    /// Creates a fresh simulation: three-segment snake centered in the
    /// arena, heading right, score zero, food on a free cell, and motion
    /// held until the first direction intent arrives.
    pub fn new(width: i32, height: i32) -> (g: GameState)
        requires
            4 <= width,
            1 <= height,
            width * height <= MAX_ARENA_AREA,
        ensures
            g.wf(),
            g.game_width == width,
            g.game_height == height,
            g.snake@ == initial_snake(width as int, height as int),
            g.direction == Direction::Right,
            g.next_direction == Direction::Right,
            g.score == 0,
            g.status == GameStatus::Playing,
            g.waiting_for_start,
            in_bounds(g.food, width as int, height as int),
            !g.snake@.contains(g.food),
    {
        let center_x = width / 2;
        let center_y = height / 2;
        let mut snake: VecDeque<Point> = VecDeque::new();
        snake.push_back(Point { x: center_x, y: center_y });
        snake.push_back(Point { x: center_x - 1, y: center_y });
        snake.push_back(Point { x: center_x - 2, y: center_y });
        proof {
            let w = width as int;
            let h = height as int;
            assert(2 <= w / 2 < w);
            assert(0 <= h / 2 < h);
            assert(snake@ =~= initial_snake(w, h));
            assert(snake@.no_duplicates());
            assert(adjacent(snake@[0], snake@[1]));
            assert(adjacent(snake@[1], snake@[2]));
        }
        let food = match place_food(width, height, &snake) {
            Some(p) => p,
            None => {
                proof {
                    let s = snake@;
                    assert(s.contains(Point { x: 0, y: 0 }));
                    assert(s.contains(Point { x: 1, y: 0 }));
                    assert(s.contains(Point { x: 2, y: 0 }));
                    assert(s.contains(Point { x: 3, y: 0 }));
                    let i0 = choose|i: int| 0 <= i < s.len() && s[i] == Point { x: 0, y: 0 };
                    let i1 = choose|i: int| 0 <= i < s.len() && s[i] == Point { x: 1, y: 0 };
                    let i2 = choose|i: int| 0 <= i < s.len() && s[i] == Point { x: 2, y: 0 };
                    let i3 = choose|i: int| 0 <= i < s.len() && s[i] == Point { x: 3, y: 0 };
                    assert(false);
                }
                Point { x: 0, y: 0 }
            },
        };
        GameState {
            snake,
            direction: Direction::Right,
            next_direction: Direction::Right,
            food,
            score: 0,
            status: GameStatus::Playing,
            game_width: width,
            game_height: height,
            waiting_for_start: true,
        }
    }

    /// Buffers a direction change. A request to reverse straight into the
    /// snake's own neck is silently ignored; any accepted request also
    /// releases the initial wait, so the first accepted intent starts the
    /// game moving.
    pub fn set_direction(&mut self, new_direction: Direction)
        requires
            old(self).wf(),
        ensures
            final(self).wf(),
            final(self).direction == old(self).direction,
            final(self).status == old(self).status,
            final(self).snake@ == old(self).snake@,
            final(self).food == old(self).food,
            final(self).score == old(self).score,
            final(self).game_width == old(self).game_width,
            final(self).game_height == old(self).game_height,
            if new_direction == old(self).direction.spec_opposite() {
                final(self).next_direction == old(self).next_direction
                    && final(self).waiting_for_start == old(self).waiting_for_start
            } else {
                final(self).next_direction == new_direction && !final(self).waiting_for_start
            },
    {
        if !self.direction.is_opposite(&new_direction) {
            self.next_direction = new_direction;
            self.waiting_for_start = false;
        }
    }

    /// Switches between Playing and Paused; a finished game stays finished.
    pub fn toggle_pause(&mut self)
        requires
            old(self).wf(),
        ensures
            final(self).wf(),
            final(self).same_board(*old(self)),
            final(self).direction == old(self).direction,
            final(self).next_direction == old(self).next_direction,
            final(self).status == match old(self).status {
                GameStatus::Playing => GameStatus::Paused,
                GameStatus::Paused => GameStatus::Playing,
                GameStatus::GameOver => GameStatus::GameOver,
            },
    {
        self.status = match self.status {
            GameStatus::Playing => GameStatus::Paused,
            GameStatus::Paused => GameStatus::Playing,
            GameStatus::GameOver => GameStatus::GameOver,
        };
    }

    /// Advances the simulation by one tick.
    ///
    /// A tick does nothing unless the game is Playing and has left the
    /// initial wait. An active tick applies the buffered direction and
    /// moves the head one cell that way: stepping out of the arena or onto
    /// the body ends the game with everything else untouched; stepping onto
    /// the food grows the snake at the head, scores, and relocates the food
    /// to a free cell (if none is left, the game ends instead); any other
    /// step advances the head and retreats the tail.
    pub fn update(&mut self)
        requires
            old(self).wf(),
        ensures
            final(self).wf(),
            final(self).game_width == old(self).game_width,
            final(self).game_height == old(self).game_height,
            final(self).waiting_for_start == old(self).waiting_for_start,
            old(self).status != GameStatus::Playing || old(self).waiting_for_start ==> {
                &&& final(self).same_board(*old(self))
                &&& final(self).direction == old(self).direction
                &&& final(self).next_direction == old(self).next_direction
                &&& final(self).status == old(self).status
            },
            old(self).status == GameStatus::Playing && !old(self).waiting_for_start ==> {
                let target = spec_step(old(self).snake@[0], old(self).next_direction);
                let w = old(self).game_width as int;
                let h = old(self).game_height as int;
                &&& final(self).direction == old(self).next_direction
                &&& final(self).next_direction == old(self).next_direction
                &&& final(self).direction != old(self).direction.spec_opposite()
                &&& if !in_bounds(target, w, h) || old(self).snake@.contains(target) {
                    &&& final(self).status == GameStatus::GameOver
                    &&& final(self).snake@ == old(self).snake@
                    &&& final(self).food == old(self).food
                    &&& final(self).score == old(self).score
                } else if target == old(self).food {
                    &&& final(self).snake@ == seq![target] + old(self).snake@
                    &&& final(self).score == old(self).score + FOOD_SCORE
                    &&& (final(self).status == GameStatus::Playing ==> in_bounds(
                        final(self).food,
                        w,
                        h,
                    ) && !final(self).snake@.contains(final(self).food))
                    &&& (final(self).status == GameStatus::GameOver ==> (forall|q: Point|
                        in_bounds(q, w, h) ==> final(self).snake@.contains(q)) && final(self).food
                        == old(self).food)
                    &&& (final(self).status == GameStatus::Playing || final(self).status
                        == GameStatus::GameOver)
                } else {
                    &&& final(self).snake@ == (seq![target] + old(self).snake@).drop_last()
                    &&& final(self).food == old(self).food
                    &&& final(self).score == old(self).score
                    &&& final(self).status == GameStatus::Playing
                }
            },
    {
        if self.status != GameStatus::Playing {
            return ;
        }
        if self.waiting_for_start {
            return ;
        }
        self.direction = self.next_direction;

        let head = self.snake[0];
        let new_head = match self.direction {
            Direction::Up => Point { x: head.x, y: head.y - 1 },
            Direction::Down => Point { x: head.x, y: head.y + 1 },
            Direction::Left => Point { x: head.x - 1, y: head.y },
            Direction::Right => Point { x: head.x + 1, y: head.y },
        };
        proof {
            assert(new_head == spec_step(head, self.direction));
        }

        if new_head.x < 0 || new_head.x >= self.game_width || new_head.y < 0 || new_head.y
            >= self.game_height {
            self.status = GameStatus::GameOver;
            return ;
        }
        if contains_point(&self.snake, new_head) {
            self.status = GameStatus::GameOver;
            return ;
        }

        proof {
            lemma_distinct_points_fit(
                self.snake@,
                self.game_width as int,
                self.game_height as int,
            );
        }
        self.snake.push_front(new_head);
        proof {
            let w = old(self).game_width as int;
            let h = old(self).game_height as int;
            assert(in_bounds(old(self).snake@[0], w, h));
            assert(adjacent(new_head, old(self).snake@[0]));
            crate::geometry::lemma_grow_head(old(self).snake@, new_head, w, h);
            assert(self.snake@ == seq![new_head] + old(self).snake@);
        }

        if new_head == self.food {
            self.score = self.score + FOOD_SCORE;
            match place_food(self.game_width, self.game_height, &self.snake) {
                Some(p) => {
                    self.food = p;
                },
                None => {
                    self.status = GameStatus::GameOver;
                },
            }
        } else {
            self.snake.pop_back();
            proof {
                let grown = seq![new_head] + old(self).snake@;
                assert(self.snake@ =~= grown.drop_last());
            }
        }
    }
}

} // verus!
