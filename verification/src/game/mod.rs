//! The in-game simulation: player, enemies, stars, score and the
//! run/pause state machine that gates them.

use vstd::prelude::*;

pub mod enemy;
pub mod movement;
pub mod player;
pub mod score;
pub mod star;

verus! {

use crate::game::player::CollidedWithEnemy;

/// Registers every in-game subsystem.
pub struct GamePlugin;

/// The simulation selector: stopped outside a round, running or paused
/// within one.
#[derive(Clone, Copy, Debug, PartialEq, Eq, Structural, Hash)]
pub enum GameState {
    Stop,
    Running,
    Paused,
}

impl Default for GameState {
    /// The simulation starts stopped.
    fn default() -> (r: Self)
        ensures
            r == GameState::Stop,
    {
        GameState::Stop
    }
}

/// The space key toggles between running and paused; a stopped simulation
/// ignores it.
pub fn toggle_pause(space_pressed: bool, state: GameState) -> (next: Option<GameState>)
    ensures
        next == (if space_pressed && state == GameState::Running {
            Some(GameState::Paused)
        } else if space_pressed && state == GameState::Paused {
            Some(GameState::Running)
        } else {
            None::<GameState>
        }),
{
    if space_pressed {
        match state {
            GameState::Running => Some(pause_game()),
            GameState::Paused => Some(resume_game()),
            _ => None,
        }
    } else {
        None
    }
}

pub fn pause_game() -> (s: GameState)
    ensures
        s == GameState::Paused,
{
    GameState::Paused
}

pub fn resume_game() -> (s: GameState)
    ensures
        s == GameState::Running,
{
    GameState::Running
}

/// Any collision with an enemy stops the simulation.
pub fn on_collided_with_enemy_set_game_over(events: &Vec<CollidedWithEnemy>) -> (next: Option<
    GameState,
>)
    ensures
        next == (if events@.len() > 0 {
            Some(GameState::Stop)
        } else {
            None::<GameState>
        }),
{
    if events.len() > 0 {
        Some(GameState::Stop)
    } else {
        None
    }
}

/// The diameter of a sprite, in thousandths of a pixel.
#[derive(Clone, Copy, Debug, PartialEq, Eq, Structural)]
pub struct Size {
    pub value: i64,
}

/// Marks an entity that confinement keeps inside the window.
pub struct Confined;

} // verus!
