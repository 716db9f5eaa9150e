//! Decoded player actions and how one action is applied to the simulation.
//!
//! The real-time loop polls the input collaborator, maps a raw key to an
//! `Intent`, hands it to `apply_intent`, then ticks and renders; everything
//! the loop decides lives here, so the loop itself stays a thin shell.

use vstd::prelude::*;
use crate::game::GameState;
use crate::game::GameStatus;
use crate::game::initial_snake;
use crate::geometry::Direction;
use crate::geometry::in_bounds;

verus! {

/// A decoded player action, as the input collaborator reports it.
#[derive(Clone, Copy, Debug, PartialEq, Eq, Structural)]
pub enum Intent {
    Turn(Direction),
    TogglePause,
    Restart,
    Quit,
}

/// Applies one decoded action to the simulation and says whether the game
/// loop should keep running.
///
/// A turn is buffered through `set_direction`; pausing is ignored while the
/// game still waits for its first move; restarting is honoured only from
/// GameOver and rebuilds a fresh simulation in the same arena; quitting
/// changes nothing and stops the loop.
pub fn apply_intent(game: &mut GameState, intent: Intent) -> (keep_running: bool)
    requires
        old(game).wf(),
    ensures
        final(game).wf(),
        final(game).game_width == old(game).game_width,
        final(game).game_height == old(game).game_height,
        keep_running == (intent != Intent::Quit),
        match intent {
            Intent::Quit => final(game).same_board(*old(game))
                && final(game).status == old(game).status
                && final(game).direction == old(game).direction
                && final(game).next_direction == old(game).next_direction,
            Intent::TogglePause => {
                &&& final(game).same_board(*old(game))
                &&& final(game).direction == old(game).direction
                &&& final(game).next_direction == old(game).next_direction
                &&& final(game).status == (if old(game).waiting_for_start {
                    old(game).status
                } else {
                    match old(game).status {
                        GameStatus::Playing => GameStatus::Paused,
                        GameStatus::Paused => GameStatus::Playing,
                        GameStatus::GameOver => GameStatus::GameOver,
                    }
                })
            },
            Intent::Restart => if old(game).status == GameStatus::GameOver {
                &&& final(game).snake@ == initial_snake(
                    old(game).game_width as int,
                    old(game).game_height as int,
                )
                &&& final(game).direction == Direction::Right
                &&& final(game).next_direction == Direction::Right
                &&& final(game).score == 0
                &&& final(game).status == GameStatus::Playing
                &&& final(game).waiting_for_start
                &&& in_bounds(
                    final(game).food,
                    old(game).game_width as int,
                    old(game).game_height as int,
                )
                &&& !final(game).snake@.contains(final(game).food)
            } else {
                &&& final(game).same_board(*old(game))
                &&& final(game).status == old(game).status
                &&& final(game).direction == old(game).direction
                &&& final(game).next_direction == old(game).next_direction
            },
            Intent::Turn(d) => {
                &&& final(game).direction == old(game).direction
                &&& final(game).status == old(game).status
                &&& final(game).snake@ == old(game).snake@
                &&& final(game).food == old(game).food
                &&& final(game).score == old(game).score
                &&& if d == old(game).direction.spec_opposite() {
                    final(game).next_direction == old(game).next_direction
                        && final(game).waiting_for_start == old(game).waiting_for_start
                } else {
                    final(game).next_direction == d && !final(game).waiting_for_start
                }
            },
        },
{
    match intent {
        Intent::Turn(d) => {
            game.set_direction(d);
            true
        },
        Intent::TogglePause => {
            if !game.waiting_for_start {
                game.toggle_pause();
            }
            true
        },
        Intent::Restart => {
            if game.status == GameStatus::GameOver {
                let width = game.game_width;
                let height = game.game_height;
                *game = GameState::new(width, height);
            }
            true
        },
        Intent::Quit => false,
    }
}

} // verus!
