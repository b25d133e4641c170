//! The main menu: a play button that starts a round and a quit button
//! that leaves the application.

use vstd::prelude::*;

verus! {

use crate::game::GameState;
use crate::ui::Interaction;
use crate::ApplicationState;

/// Registers the main-menu systems.
pub struct MainMenuPlugin;

/// Marks the root of the main-menu screen.
pub struct MainMenu;

/// Marks the title banner of the main menu.
pub struct TitleSection;

/// Marks the button that starts a round.
pub struct PlayButton;

/// Marks the button that quits the application.
pub struct QuitButton;

/// A pressed play button enters the game and starts the simulation.
pub fn on_play_button_pressed(interaction: Interaction) -> (next: Option<(ApplicationState,
    GameState,
)>)
    ensures
        next == (if interaction == Interaction::Pressed {
            Some((ApplicationState::InGame, GameState::Running))
        } else {
            None::<(ApplicationState, GameState)>
        }),
{
    if interaction == Interaction::Pressed {
        Some((ApplicationState::InGame, GameState::Running))
    } else {
        None
    }
}

/// A pressed quit button asks the application to exit.
pub fn on_quit_button_pressed(interaction: Interaction) -> (exit: bool)
    ensures
        exit == (interaction == Interaction::Pressed),
{
    interaction == Interaction::Pressed
}

} // verus!
