use ball_game::asset_handler::load_assets;
use ball_game::camera::spawn_camera;
use ball_game::game::player::{
    on_enemy_collide_play_game_over_sound, on_star_collide_play_star_despawn_sound,
    CollidedWithEnemy, CollidedWithStar,
};
use ball_game::game::score::{
    on_collided_with_enemy_update_high_score, on_event_game_over, on_score_change,
    update_high_score, GameOver, HighScore, Score,
};
use ball_game::helpers::{decimal_string, AudioHelper, RandomHelper, SpriteHelper, Window};
use ball_game::math::Vec2;
use ball_game::ui::game_over_menu::spawn_game_over_menu;
use ball_game::ui::hud_menu::{update_enemy_text, update_score_text};

#[test]
fn decimal_rendering() {
    assert_eq!(decimal_string(0), "0");
    assert_eq!(decimal_string(7), "7");
    assert_eq!(decimal_string(10), "10");
    assert_eq!(decimal_string(12_345), "12345");
    assert_eq!(decimal_string(u64::MAX), "18446744073709551615");
}

#[test]
fn hud_texts_show_plain_numbers() {
    assert_eq!(update_score_text(&Score { value: 42 }), "42");
    assert_eq!(update_enemy_text(0), "0");
    assert_eq!(update_enemy_text(4), "4");
}

#[test]
fn score_change_message() {
    assert_eq!(on_score_change(&Score { value: 5 }), "Score updated: 5");
}

#[test]
fn game_over_messages_one_per_event() {
    let events = vec![GameOver { score: 3 }, GameOver { score: 11 }];
    let msgs = on_event_game_over(&events);
    assert_eq!(
        msgs,
        vec![
            "Your final score is: 3".to_string(),
            "Your final score is: 11".to_string()
        ]
    );
}

#[test]
fn high_score_table_appends_in_order() {
    let mut table = HighScore::default();
    update_high_score(&mut table, &vec![GameOver { score: 3 }]);
    on_collided_with_enemy_update_high_score(
        &mut table,
        &vec![CollidedWithEnemy { score: 7 }, CollidedWithEnemy { score: 1 }],
    );
    let entries: Vec<(String, u32)> = table.scores.clone();
    assert_eq!(
        entries,
        vec![
            ("Player".to_string(), 3),
            ("Player".to_string(), 7),
            ("Player".to_string(), 1)
        ]
    );
}

#[test]
fn game_over_screen_shows_the_last_filed_score() {
    let mut table = HighScore::default();
    assert_eq!(spawn_game_over_menu(Some(&table)), "Final Score: 0");
    update_high_score(&mut table, &vec![GameOver { score: 3 }, GameOver { score: 11 }]);
    assert_eq!(spawn_game_over_menu(Some(&table)), "Final Score: 11");
    assert_eq!(spawn_game_over_menu(None), "Final Score: 0");
}

#[test]
fn asset_paths_are_fixed() {
    let a = load_assets();
    assert_eq!(a.player_texture, "sprites/ball_blue_large.png");
    assert_eq!(a.enemy_texture, "sprites/ball_red_large.png");
    assert_eq!(a.star_texture, "sprites/star.png");
    assert_eq!(a.bounce_1_sound, "audio/pluck_001.ogg");
    assert_eq!(a.bounce_2_sound, "audio/pluck_002.ogg");
    assert_eq!(a.obtain_star_sound, "audio/laserLarge_000.ogg");
    assert_eq!(a.game_over_sound, "audio/explosionCrunch_000.ogg");
}

#[test]
fn sprite_and_sound_names() {
    assert_eq!(SpriteHelper::enemy_sprite(), "sprites/ball_red_large.png");
    assert_eq!(SpriteHelper::player_sprite(), "sprites/ball_blue_large.png");
    assert_eq!(SpriteHelper::star_sprite(), "sprites/star.png");
    assert_eq!(AudioHelper::obtain_star_sound(), "audio/laserLarge_000.ogg");
    assert_eq!(AudioHelper::game_over_sound(), "audio/explosionCrunch_000.ogg");
    for _ in 0..50 {
        let s = AudioHelper::bounce_sound();
        assert!(s == "audio/pluck_001.ogg" || s == "audio/pluck_002.ogg");
    }
}

#[test]
fn collision_sounds_play_once_per_frame_with_events() {
    let enemy_events = vec![CollidedWithEnemy { score: 0 }];
    assert_eq!(
        on_enemy_collide_play_game_over_sound(&enemy_events),
        Some("audio/explosionCrunch_000.ogg".to_string())
    );
    assert_eq!(on_enemy_collide_play_game_over_sound(&Vec::new()), None);

    let star_events = vec![CollidedWithStar { star_entity: 1 }];
    assert_eq!(
        on_star_collide_play_star_despawn_sound(&star_events),
        Some("audio/laserLarge_000.ogg".to_string())
    );
    assert_eq!(on_star_collide_play_star_despawn_sound(&Vec::new()), None);
}

#[test]
fn random_draws_respect_their_bound() {
    assert_eq!(RandomHelper::random_below(1), 0);
    for _ in 0..200 {
        assert!(RandomHelper::random_below(7) < 7);
    }
    for _ in 0..50 {
        let v = RandomHelper::random_below(1_000_000_000);
        assert!(v < 1_000_000_000);
    }
}

#[test]
fn camera_spawns_at_the_window_center() {
    let w = Window {
        width: 800_000,
        height: 600_000,
    };
    assert_eq!(
        spawn_camera(&w),
        Vec2 {
            x: 400_000,
            y: 300_000
        }
    );
}
