//! The in-game heads-up display: the score and the number of enemies,
//! rendered as decimal text.

use vstd::prelude::*;

verus! {

use crate::game::score::Score;
use crate::helpers::{dec_digits, decimal_string};

/// Registers the heads-up-display systems.
pub struct InGameHUDPlugin;

/// Marks the root of the heads-up display.
pub struct HUD;

/// Marks the text that shows the score.
pub struct ScoreText;

/// Marks the text that shows the enemy count.
pub struct EnemyText;

/// The text the score display shows.
pub fn update_score_text(score: &Score) -> (text: String)
    ensures
        text@ == dec_digits(score.value as nat),
{
    decimal_string(score.value as u64)
}

/// The text the enemy counter shows.
pub fn update_enemy_text(count: usize) -> (text: String)
    ensures
        text@ == dec_digits(count as nat),
{
    decimal_string(count as u64)
}

} // verus!
