//! Core logic of a small 2D "catch the stars, avoid the enemies" arcade game:
//! entity lifecycle, circle collision, boundary confinement, timed spawning,
//! score keeping, and the two state machines that gate every screen.
//!
//! All lengths are measured in thousandths of a pixel, all times in
//! milliseconds, and all speeds in pixels per second (which equals
//! thousandths of a pixel per millisecond), so every computation is exact
//! integer arithmetic.

use vstd::prelude::*;

pub mod asset_handler;
pub mod camera;
pub mod game;
pub mod helpers;
pub mod math;
pub mod timer;
pub mod ui;

verus! {

use crate::game::player::CollidedWithEnemy;
use crate::game::star::{live_stars, Star};

/// Top-level screen selector.
#[derive(Clone, Copy, Debug, PartialEq, Eq, Structural, Hash)]
pub enum ApplicationState {
    MainMenu,
    InGame,
    GameOver,
}

impl Default for ApplicationState {
    /// The application starts on the main menu.
    fn default() -> (r: Self)
        ensures
            r == ApplicationState::MainMenu,
    {
        ApplicationState::MainMenu
    }
}

/// Marks an entity that the end-of-frame sweep must remove.
pub struct ScheduleDespawn {}

impl Default for ScheduleDespawn {
    fn default() -> (r: Self)
        ensures
            true,
    {
        ScheduleDespawn {}
    }
}

/// Registers the application-level systems: camera, state transitions and
/// the end-of-frame despawn sweep.
pub struct ApplicationPlugin;

/// Pressing the escape key asks the application to exit.
pub fn exit_on_escape(escape_pressed: bool) -> (exit: bool)
    ensures
        exit == escape_pressed,
{
    escape_pressed
}

/// On the G key, the main menu and the game-over screen both enter the game.
pub fn transition_in_game_state(current: ApplicationState, g_pressed: bool) -> (next: Option<
    ApplicationState,
>)
    ensures
        next == (if g_pressed && (current == ApplicationState::MainMenu || current
            == ApplicationState::GameOver) {
            Some(ApplicationState::InGame)
        } else {
            None::<ApplicationState>
        }),
{
    if g_pressed {
        match current {
            ApplicationState::MainMenu | ApplicationState::GameOver => Some(
                ApplicationState::InGame,
            ),
            _ => None,
        }
    } else {
        None
    }
}

/// On the M key, the game and the game-over screen both return to the main
/// menu.
pub fn transition_main_menu_state(current: ApplicationState, m_pressed: bool) -> (next: Option<
    ApplicationState,
>)
    ensures
        next == (if m_pressed && (current == ApplicationState::InGame || current
            == ApplicationState::GameOver) {
            Some(ApplicationState::MainMenu)
        } else {
            None::<ApplicationState>
        }),
{
    if m_pressed {
        match current {
            ApplicationState::InGame | ApplicationState::GameOver => Some(
                ApplicationState::MainMenu,
            ),
            _ => None,
        }
    } else {
        None
    }
}

/// Any collision with an enemy sends the application to the game-over
/// screen.
pub fn transition_game_over(events: &Vec<CollidedWithEnemy>) -> (next: Option<ApplicationState>)
    ensures
        next == (if events@.len() > 0 {
            Some(ApplicationState::GameOver)
        } else {
            None::<ApplicationState>
        }),
{
    if events.len() > 0 {
        Some(ApplicationState::GameOver)
    } else {
        None
    }
}

/// The end-of-frame sweep: every star marked for despawn leaves, the rest
/// stay in order.
pub fn cleanup_entity(stars: &mut Vec<Star>)
    ensures
        final(stars)@ == live_stars(old(stars)@),
{
    let mut kept: Vec<Star> = Vec::new();
    let mut i: usize = 0;
    while i < stars.len()
        invariant
            i <= stars@.len(),
            kept@ == live_stars(stars@.take(i as int)),
        decreases stars@.len() - i,
    {
        if !stars[i].scheduled_despawn {
            let s = stars[i];
            kept.push(s);
        }
        proof {
            assert(stars@.take(i + 1).drop_last() =~= stars@.take(i as int));
            assert(stars@.take(i + 1).last() == stars@[i as int]);
        }
        i += 1;
    }
    proof {
        assert(stars@.take(stars@.len() as int) =~= stars@);
    }
    *stars = kept;
}

/// Marks an entity for the end-of-frame despawn sweep.
pub struct Despawn {}

impl Default for Despawn {
    fn default() -> (r: Self)
        ensures
            true,
    {
        Despawn {}
    }
}

/// Registers the application-wide systems shared by every screen.
pub struct SystemPlugin;

} // verus!
