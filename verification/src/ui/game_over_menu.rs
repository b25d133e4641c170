//! The game-over screen: the final score of the round that just ended,
//! and buttons to restart, return to the main menu, or quit.

use vstd::prelude::*;

verus! {

use crate::game::score::HighScore;
use crate::game::GameState;
use crate::helpers::{dec_digits, decimal_string};
use crate::ui::Interaction;
use crate::ApplicationState;
use vstd::string::StringExecFns;

/// Registers the game-over-menu systems.
pub struct GameOverMenuPlugin;

/// Marks the root of the game-over screen.
pub struct GameOverMenu;

/// Marks the text that shows the final score.
pub struct FinalScoreText;

/// Marks the button that starts a fresh round.
pub struct RestartButton;

/// Marks the button that returns to the main menu.
pub struct MainMenuButton;

/// Marks the button that quits the application.
pub struct QuitButton;

/// The score the game-over screen shows: the most recently filed
/// high-score entry, or zero when the table is empty or absent.
pub open spec fn final_score_of(high_score: Option<&HighScore>) -> u32 {
    match high_score {
        Some(h) => if h.scores@.len() == 0 {
            0
        } else {
            h.scores@.last().1
        },
        None => 0,
    }
}

/// The final-score line of the game-over screen.
pub fn spawn_game_over_menu(high_score: Option<&HighScore>) -> (text: String)
    ensures
        text@ == "Final Score: "@ + dec_digits(final_score_of(high_score) as nat),
{
    let final_score: u32 = match high_score {
        Some(h) => {
            if h.scores.len() == 0 {
                0
            } else {
                let last: usize = h.scores.len() - 1;
                h.scores[last].1
            }
        },
        None => 0,
    };
    let prefix = "Final Score: ".to_owned();
    prefix.concat(decimal_string(final_score as u64).as_str())
}

/// A pressed restart button starts a fresh round.
pub fn on_restart_button_pressed(interaction: Interaction) -> (next: Option<(ApplicationState,
    GameState,
)>)
    ensures
        next == (if interaction == Interaction::Pressed {
            Some((ApplicationState::InGame, GameState::Running))
        } else {
            None::<(ApplicationState, GameState)>
        }),
{
    if interaction == Interaction::Pressed {
        Some((ApplicationState::InGame, GameState::Running))
    } else {
        None
    }
}

/// A pressed main-menu button leaves the game-over screen for the main
/// menu, simulation stopped.
pub fn on_main_menu_button_pressed(interaction: Interaction) -> (next: Option<(ApplicationState,
    GameState,
)>)
    ensures
        next == (if interaction == Interaction::Pressed {
            Some((ApplicationState::MainMenu, GameState::Stop))
        } else {
            None::<(ApplicationState, GameState)>
        }),
{
    if interaction == Interaction::Pressed {
        Some((ApplicationState::MainMenu, GameState::Stop))
    } else {
        None
    }
}

/// A pressed quit button asks the application to exit.
pub fn on_quit_button_pressed(interaction: Interaction) -> (exit: bool)
    ensures
        exit == (interaction == Interaction::Pressed),
{
    interaction == Interaction::Pressed
}

} // verus!
