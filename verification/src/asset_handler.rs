//! The fixed set of art and audio files the game loads at startup.

use vstd::prelude::*;

verus! {

/// The paths of every asset the game uses.
pub struct AssetHandler {
    pub player_texture: String,
    pub enemy_texture: String,
    pub star_texture: String,
    pub bounce_1_sound: String,
    pub bounce_2_sound: String,
    pub obtain_star_sound: String,
    pub game_over_sound: String,
}

/// Registers asset loading at startup.
pub struct AssetHandlerPlugin;

/// The full asset list, each under its fixed path.
pub fn load_assets() -> (a: AssetHandler)
    ensures
        a.player_texture@ == "sprites/ball_blue_large.png"@,
        a.enemy_texture@ == "sprites/ball_red_large.png"@,
        a.star_texture@ == "sprites/star.png"@,
        a.bounce_1_sound@ == "audio/pluck_001.ogg"@,
        a.bounce_2_sound@ == "audio/pluck_002.ogg"@,
        a.obtain_star_sound@ == "audio/laserLarge_000.ogg"@,
        a.game_over_sound@ == "audio/explosionCrunch_000.ogg"@,
{
    AssetHandler {
        player_texture: "sprites/ball_blue_large.png".to_owned(),
        enemy_texture: "sprites/ball_red_large.png".to_owned(),
        star_texture: "sprites/star.png".to_owned(),
        bounce_1_sound: "audio/pluck_001.ogg".to_owned(),
        bounce_2_sound: "audio/pluck_002.ogg".to_owned(),
        obtain_star_sound: "audio/laserLarge_000.ogg".to_owned(),
        game_over_sound: "audio/explosionCrunch_000.ogg".to_owned(),
    }
}

} // verus!
