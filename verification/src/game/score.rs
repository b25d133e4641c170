//! Score and high-score bookkeeping, and the messages and transitions the
//! score events drive.

use vstd::prelude::*;

verus! {

use crate::game::player::CollidedWithEnemy;
use crate::game::GameState;
use crate::helpers::{dec_digits, decimal_string};
use crate::ApplicationState;
use vstd::string::StringExecFns;

/// Registers the per-round score systems.
pub struct ScorePlugin;

/// Registers the cross-round high-score systems.
pub struct HighScorePlugin;

/// The points collected in the current round.
#[derive(Clone, Copy, Debug, PartialEq, Eq, Structural)]
pub struct Score {
    pub value: u32,
}

impl Default for Score {
    /// A round starts at zero points.
    fn default() -> (s: Score)
        ensures
            s.value == 0,
    {
        Score { value: 0 }
    }
}

/// The final scores of past rounds, each under the player's name.
pub struct HighScore {
    pub scores: Vec<(String, u32)>,
}

impl Default for HighScore {
    /// The table starts empty.
    fn default() -> (h: HighScore)
        ensures
            h.scores@.len() == 0,
    {
        HighScore { scores: Vec::new() }
    }
}

/// Emitted when a round ends, carrying the final score.
#[derive(Clone, Copy, Debug, PartialEq, Eq, Structural)]
pub struct GameOver {
    pub score: u32,
}

/// Emitted when the player entity dies, carrying the final score.
#[derive(Clone, Copy, Debug, PartialEq, Eq, Structural)]
pub struct PlayerDead {
    pub score: u32,
}

/// A fresh zero score for the round that begins.
pub fn insert_score(score: &mut Option<Score>)
    ensures
        *final(score) == Some((Score { value: 0u32 })),
{
    *score = Some(Score::default());
}

/// The score resource leaves with the round.
pub fn remove_score(score: &mut Option<Score>)
    ensures
        final(score).is_none(),
{
    *score = None;
}

/// The line printed whenever the score changes.
pub fn on_score_change(score: &Score) -> (msg: String)
    ensures
        msg@ == "Score updated: "@ + dec_digits(score.value as nat),
{
    let prefix = "Score updated: ".to_owned();
    prefix.concat(decimal_string(score.value as u64).as_str())
}

/// The line printed for each round that ends.
pub fn on_event_game_over(events: &Vec<GameOver>) -> (msgs: Vec<String>)
    ensures
        msgs@.len() == events@.len(),
        forall|j: int|
            0 <= j < events@.len() ==> (#[trigger] msgs@[j])@ == "Your final score is: "@
                + dec_digits(events@[j].score as nat),
{
    let mut msgs: Vec<String> = Vec::new();
    let mut i: usize = 0;
    while i < events.len()
        invariant
            i <= events@.len(),
            msgs@.len() == i,
            forall|j: int|
                0 <= j < i ==> (#[trigger] msgs@[j])@ == "Your final score is: "@ + dec_digits(
                    events@[j].score as nat,
                ),
        decreases events@.len() - i,
    {
        let prefix = "Your final score is: ".to_owned();
        let msg = prefix.concat(decimal_string(events[i].score as u64).as_str());
        msgs.push(msg);
        i += 1;
    }
    msgs
}

/// A dead player ends the round: the application shows the game-over
/// screen and the simulation pauses.
pub fn on_player_dead(events: &Vec<PlayerDead>) -> (r: (Option<ApplicationState>, Option<
    GameState,
>))
    ensures
        r == (if events@.len() > 0 {
            (Some(ApplicationState::GameOver), Some(GameState::Paused))
        } else {
            (None::<ApplicationState>, None::<GameState>)
        }),
{
    if events.len() > 0 {
        (Some(ApplicationState::GameOver), Some(GameState::Paused))
    } else {
        (None, None)
    }
}

/// Any collision with an enemy pauses the simulation.
pub fn on_collided_with_enemy_set_pause(events: &Vec<CollidedWithEnemy>) -> (next: Option<
    GameState,
>)
    ensures
        next == (if events@.len() > 0 {
            Some(GameState::Paused)
        } else {
            None::<GameState>
        }),
{
    if events.len() > 0 {
        Some(GameState::Paused)
    } else {
        None
    }
}

/// The table `post` is `pre` with one entry per value of `appended`
/// appended, each under the player's name.
pub open spec fn appended_scores(pre: Seq<(String, u32)>, post: Seq<(String, u32)>, appended: Seq<u32>) -> bool {
    &&& post.len() == pre.len() + appended.len()
    &&& forall|j: int| 0 <= j < pre.len() ==> post[j] == pre[j]
    &&& forall|j: int|
        0 <= j < appended.len() ==> (#[trigger] post[pre.len() + j]).0@ == "Player"@ && post[pre.len() + j].1 == appended[j]
}

/// Each collision with an enemy files the score it carries into the
/// high-score table, under the player's name.
pub fn on_collided_with_enemy_update_high_score(
    high_score: &mut HighScore,
    events: &Vec<CollidedWithEnemy>,
)
    ensures
        appended_scores(old(high_score).scores@, final(high_score).scores@, events@.map_values(|e: CollidedWithEnemy| e.score)),
{
    let ghost orig = high_score.scores@;
    let mut i: usize = 0;
    while i < events.len()
        invariant
            i <= events@.len(),
            high_score.scores@.len() == orig.len() + i,
            forall|j: int| 0 <= j < orig.len() ==> high_score.scores@[j] == orig[j],
            forall|j: int|
                0 <= j < i ==> (#[trigger] high_score.scores@[orig.len() + j]).0@ == "Player"@
                    && high_score.scores@[orig.len() + j].1 == events@[j].score,
        decreases events@.len() - i,
    {
        let entry = ("Player".to_owned(), events[i].score);
        high_score.scores.push(entry);
        i += 1;
    }
}

/// Each round that ends files its final score into the high-score table,
/// under the player's name.
pub fn update_high_score(high_score: &mut HighScore, events: &Vec<GameOver>)
    ensures
        appended_scores(old(high_score).scores@, final(high_score).scores@, events@.map_values(|e: GameOver| e.score)),
{
    let ghost orig = high_score.scores@;
    let mut i: usize = 0;
    while i < events.len()
        invariant
            i <= events@.len(),
            high_score.scores@.len() == orig.len() + i,
            forall|j: int| 0 <= j < orig.len() ==> high_score.scores@[j] == orig[j],
            forall|j: int|
                0 <= j < i ==> (#[trigger] high_score.scores@[orig.len() + j]).0@ == "Player"@
                    && high_score.scores@[orig.len() + j].1 == events@[j].score,
        decreases events@.len() - i,
    {
        let entry = ("Player".to_owned(), events[i].score);
        high_score.scores.push(entry);
        i += 1;
    }
}

} // verus!
