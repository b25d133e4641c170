//! The pause menu, shown while the simulation is paused: resume, return
//! to the main menu, or quit.

use vstd::prelude::*;

verus! {

use crate::game::GameState;
use crate::ui::Interaction;
use crate::ApplicationState;

/// Registers the pause-menu systems.
pub struct PauseMenuPlugin;

/// Marks the root of the pause-menu screen.
pub struct PauseMenu;

/// Marks the button that resumes the simulation.
pub struct ResumeButton;

/// Marks the button that returns to the main menu.
pub struct MainMenuButton;

/// Marks the button that quits the application.
pub struct QuitButton;

/// A pressed resume button sets the simulation running again.
pub fn on_resume_button_pressed(interaction: Interaction) -> (next: Option<GameState>)
    ensures
        next == (if interaction == Interaction::Pressed {
            Some(GameState::Running)
        } else {
            None::<GameState>
        }),
{
    if interaction == Interaction::Pressed {
        Some(GameState::Running)
    } else {
        None
    }
}

/// A pressed main-menu button leaves the round: back to the main menu,
/// simulation stopped.
pub fn on_main_menu_button_pressed(interaction: Interaction) -> (next: Option<(ApplicationState,
    GameState,
)>)
    ensures
        next == (if interaction == Interaction::Pressed {
            Some((ApplicationState::MainMenu, GameState::Stop))
        } else {
            None::<(ApplicationState, GameState)>
        }),
{
    if interaction == Interaction::Pressed {
        Some((ApplicationState::MainMenu, GameState::Stop))
    } else {
        None
    }
}

/// A pressed quit button asks the application to exit.
pub fn on_quit_button_pressed(interaction: Interaction) -> (exit: bool)
    ensures
        exit == (interaction == Interaction::Pressed),
{
    interaction == Interaction::Pressed
}

} // verus!
