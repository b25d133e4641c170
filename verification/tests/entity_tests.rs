use ball_game::cleanup_entity;
use ball_game::game::enemy::{
    confine_enemy_movement, despawn_all_enemies, enemy_movement, spawn_enemy_overtime,
    spawn_initial_enemies, tick_spawn_enemy_overtime, update_enemy_direction_when_out_of_bound,
    Enemy, EnemySpawnTimer, NUMBER_OF_ENEMIES,
};
use ball_game::game::player::{
    despawn_player, movement, on_enemy_collide_despawn_player, on_hit_enemy_emit_collide_event,
    on_hit_star_emit_collide_event, on_player_hit_enemy, on_star_collide_despawn_star,
    on_star_collide_event_add_score, spawn_player, CollidedWithStar, Player,
};
use ball_game::game::score::{GameOver, Score};
use ball_game::game::star::{
    despawn_all_stars, spawn_initial_stars, spawn_stars_overtime, tick_spawn_stars_overtime, Star,
    StarSpawnTimer, NUMBER_OF_STARS,
};
use ball_game::helpers::Window;
use ball_game::math::Vec2;
use ball_game::timer::RepeatingTimer;

fn window() -> Window {
    Window {
        width: 800_000,
        height: 600_000,
    }
}

#[test]
fn timer_finishes_exactly_at_period() {
    let mut t = RepeatingTimer::new(1_000);
    t.tick(999);
    assert!(!t.just_finished());
    assert_eq!(t.elapsed_ms, 999);
    t.tick(1);
    assert!(t.just_finished());
    assert_eq!(t.elapsed_ms, 0);
    t.tick(2_500);
    assert!(t.just_finished());
    assert_eq!(t.elapsed_ms, 500);
    t.tick(100);
    assert!(!t.just_finished());
    assert_eq!(t.elapsed_ms, 600);
}

#[test]
fn spawn_timers_have_their_periods() {
    let st = StarSpawnTimer::default();
    assert_eq!(st.timer.period_ms, 1_000);
    let et = EnemySpawnTimer::default();
    assert_eq!(et.timer.period_ms, 5_000);
}

#[test]
fn initial_stars_are_inside_the_window_with_fresh_ids() {
    let w = window();
    let mut next_id: u64 = 5;
    let stars = spawn_initial_stars(&w, &mut next_id);
    assert_eq!(stars.len(), NUMBER_OF_STARS);
    assert_eq!(next_id, 5 + NUMBER_OF_STARS as u64);
    for (k, s) in stars.iter().enumerate() {
        assert_eq!(s.id, 5 + k as u64);
        assert!(0 <= s.position.x && s.position.x < w.width);
        assert!(0 <= s.position.y && s.position.y < w.height);
        assert!(!s.scheduled_despawn);
    }
}

#[test]
fn initial_enemies_are_inside_the_window() {
    let w = window();
    let enemies = spawn_initial_enemies(&w);
    assert_eq!(enemies.len(), NUMBER_OF_ENEMIES);
    for e in enemies.iter() {
        assert!(0 <= e.position.x && e.position.x < w.width);
        assert!(0 <= e.position.y && e.position.y < w.height);
        assert!(e.direction.x == 0 || e.direction.x == 1);
        assert!(e.direction.y == 0 || e.direction.y == 1);
        assert!(!(e.direction.x == 0 && e.direction.y == 0));
    }
}

#[test]
fn stars_spawn_overtime_only_when_the_timer_finished() {
    let w = window();
    let mut stars: Vec<Star> = Vec::new();
    let mut next_id: u64 = 0;

    let idle = StarSpawnTimer {
        timer: RepeatingTimer::new(1_000),
    };
    assert!(!spawn_stars_overtime(&idle, &w, &mut stars, &mut next_id));
    assert_eq!(stars.len(), 0);
    assert_eq!(next_id, 0);

    let mut fired = StarSpawnTimer {
        timer: RepeatingTimer::new(1_000),
    };
    tick_spawn_stars_overtime(&mut fired, 1_000);
    assert!(fired.timer.finished_this_tick);
    assert!(spawn_stars_overtime(&fired, &w, &mut stars, &mut next_id));
    assert_eq!(stars.len(), 1);
    assert_eq!(stars[0].id, 0);
    assert_eq!(next_id, 1);
}

#[test]
fn enemies_spawn_overtime_only_when_the_timer_finished() {
    let w = window();
    let mut enemies: Vec<Enemy> = Vec::new();

    let idle = EnemySpawnTimer {
        timer: RepeatingTimer::new(5_000),
    };
    assert!(!spawn_enemy_overtime(&idle, &w, &mut enemies));
    assert_eq!(enemies.len(), 0);

    let mut fired = EnemySpawnTimer {
        timer: RepeatingTimer::new(5_000),
    };
    tick_spawn_enemy_overtime(&mut fired, 7_500);
    assert!(fired.timer.finished_this_tick);
    assert!(spawn_enemy_overtime(&fired, &w, &mut enemies));
    assert_eq!(enemies.len(), 1);
}

#[test]
fn enemy_movement_advances_every_enemy() {
    let mut enemies = vec![
        Enemy {
            position: Vec2 { x: 0, y: 0 },
            direction: Vec2 { x: 1, y: 1 },
        },
        Enemy {
            position: Vec2 { x: 10_000, y: 20_000 },
            direction: Vec2 { x: -1, y: 0 },
        },
    ];
    // 200 pixels per second for 10 ms: 2 pixels.
    enemy_movement(&mut enemies, 10);
    assert_eq!(enemies[0].position, Vec2 { x: 2_000, y: 2_000 });
    assert_eq!(enemies[0].direction, Vec2 { x: 1, y: 1 });
    assert_eq!(enemies[1].position, Vec2 { x: 8_000, y: 20_000 });
}

#[test]
fn enemy_bounces_at_the_edges() {
    let w = window();
    let mut enemies = vec![
        // At the left bound: x == 32000.
        Enemy {
            position: Vec2 { x: 32_000, y: 300_000 },
            direction: Vec2 { x: 1, y: 1 },
        },
        // Above the top bound: y >= 568000.
        Enemy {
            position: Vec2 { x: 400_000, y: 590_000 },
            direction: Vec2 { x: 1, y: 1 },
        },
        // Well inside.
        Enemy {
            position: Vec2 { x: 400_000, y: 300_000 },
            direction: Vec2 { x: 1, y: -1 },
        },
    ];
    let any = update_enemy_direction_when_out_of_bound(&mut enemies, &w);
    assert!(any);
    assert_eq!(enemies[0].direction, Vec2 { x: -1, y: 1 });
    assert_eq!(enemies[1].direction, Vec2 { x: 1, y: -1 });
    assert_eq!(enemies[2].direction, Vec2 { x: 1, y: -1 });
    assert_eq!(enemies[0].position, Vec2 { x: 32_000, y: 300_000 });

    let mut inside = vec![Enemy {
        position: Vec2 { x: 400_000, y: 300_000 },
        direction: Vec2 { x: 1, y: 1 },
    }];
    assert!(!update_enemy_direction_when_out_of_bound(&mut inside, &w));
}

#[test]
fn confinement_pulls_enemies_back_inside() {
    let w = window();
    let mut enemies = vec![Enemy {
        position: Vec2 {
            x: -100_000,
            y: 900_000,
        },
        direction: Vec2 { x: -1, y: 1 },
    }];
    confine_enemy_movement(&mut enemies, &w);
    assert_eq!(
        enemies[0].position,
        Vec2 {
            x: 32_000,
            y: 568_000
        }
    );
    assert_eq!(enemies[0].direction, Vec2 { x: -1, y: 1 });
}

#[test]
fn despawning_all_enemies_empties_the_field() {
    let w = window();
    let mut enemies = spawn_initial_enemies(&w);
    despawn_all_enemies(&mut enemies);
    assert_eq!(enemies.len(), 0);
}

#[test]
fn player_spawns_at_the_center() {
    let w = window();
    let b = spawn_player(&w);
    assert_eq!(b.name, "Player");
    assert_eq!(
        b.player.position,
        Vec2 {
            x: 400_000,
            y: 300_000
        }
    );
    assert_eq!(b.size.value, 64_000);
}

#[test]
fn player_movement_advances_by_input() {
    let mut player = Player {
        position: Vec2 { x: 1_000, y: 2_000 },
    };
    // 500 pixels per second for 16 ms: 8 pixels.
    movement(&mut player, false, true, true, false, 16);
    assert_eq!(player.position, Vec2 { x: 9_000, y: 10_000 });
    // Opposite keys cancel out.
    movement(&mut player, true, true, false, false, 16);
    assert_eq!(player.position, Vec2 { x: 9_000, y: 10_000 });
}

#[test]
fn star_collisions_are_reported_per_live_star() {
    let player = Player {
        position: Vec2 { x: 0, y: 0 },
    };
    let stars = vec![
        // Within the 47-pixel radius sum.
        Star {
            id: 1,
            position: Vec2 { x: 40_000, y: 0 },
            scheduled_despawn: false,
        },
        // Too far away.
        Star {
            id: 2,
            position: Vec2 { x: 100_000, y: 0 },
            scheduled_despawn: false,
        },
        // Overlapping but already collected.
        Star {
            id: 3,
            position: Vec2 { x: 0, y: 0 },
            scheduled_despawn: true,
        },
        // Overlapping again.
        Star {
            id: 4,
            position: Vec2 { x: 0, y: 46_999 },
            scheduled_despawn: false,
        },
    ];
    let events = on_hit_star_emit_collide_event(&player, &stars);
    let ids: Vec<u64> = events.iter().map(|e| e.star_entity).collect();
    assert_eq!(ids, vec![1, 4]);
}

#[test]
fn collected_stars_are_marked_and_swept() {
    let mut stars = vec![
        Star {
            id: 1,
            position: Vec2 { x: 0, y: 0 },
            scheduled_despawn: false,
        },
        Star {
            id: 2,
            position: Vec2 { x: 50_000, y: 0 },
            scheduled_despawn: false,
        },
    ];
    let events = vec![CollidedWithStar { star_entity: 1 }];
    on_star_collide_despawn_star(&mut stars, &events);
    assert!(stars[0].scheduled_despawn);
    assert!(!stars[1].scheduled_despawn);

    cleanup_entity(&mut stars);
    assert_eq!(stars.len(), 1);
    assert_eq!(stars[0].id, 2);
}

#[test]
fn each_collected_star_is_worth_one_point() {
    let mut score = Some(Score { value: 5 });
    let events = vec![
        CollidedWithStar { star_entity: 1 },
        CollidedWithStar { star_entity: 2 },
        CollidedWithStar { star_entity: 3 },
    ];
    on_star_collide_event_add_score(&mut score, &events);
    assert_eq!(score.unwrap().value, 8);

    let mut absent: Option<Score> = None;
    on_star_collide_event_add_score(&mut absent, &events);
    assert!(absent.is_none());
}

#[test]
fn enemy_collisions_carry_the_score_and_kill_the_player() {
    let player = Player {
        position: Vec2 { x: 0, y: 0 },
    };
    let enemies = vec![
        // Radii sum to 64 pixels for two 64-pixel sprites.
        Enemy {
            position: Vec2 { x: 64_000, y: 0 },
            direction: Vec2 { x: 1, y: 0 },
        },
        Enemy {
            position: Vec2 { x: 64_001, y: 0 },
            direction: Vec2 { x: 1, y: 0 },
        },
    ];
    let events = on_hit_enemy_emit_collide_event(&player, &enemies, &Some(Score { value: 9 }));
    assert_eq!(events.len(), 1);
    assert_eq!(events[0].score, 9);

    let no_score = on_hit_enemy_emit_collide_event(&player, &enemies, &None);
    assert_eq!(no_score.len(), 1);
    assert_eq!(no_score[0].score, 0);

    let mut alive = Some(player);
    on_enemy_collide_despawn_player(&mut alive, &events);
    assert!(alive.is_none());

    let mut untouched = Some(player);
    on_enemy_collide_despawn_player(&mut untouched, &Vec::new());
    assert!(untouched.is_some());
}

#[test]
fn combined_enemy_hit_handler() {
    let at_origin = Player {
        position: Vec2 { x: 0, y: 0 },
    };
    let enemies = vec![Enemy {
        position: Vec2 { x: 64_000, y: 0 },
        direction: Vec2 { x: 1, y: 0 },
    }];

    let mut player = Some(at_origin);
    let (sound, events) = on_player_hit_enemy(&mut player, &enemies, &Some(Score { value: 4 }));
    assert_eq!(sound, Some("audio/explosionCrunch_000.ogg".to_string()));
    assert!(player.is_none());
    assert_eq!(events, vec![GameOver { score: 4 }]);

    // Without a score resource the player still dies, but no event is sent.
    let mut player = Some(at_origin);
    let (sound, events) = on_player_hit_enemy(&mut player, &enemies, &None);
    assert!(sound.is_some());
    assert!(player.is_none());
    assert!(events.is_empty());

    // Without a player nothing happens.
    let mut absent: Option<Player> = None;
    let (sound, events) = on_player_hit_enemy(&mut absent, &enemies, &Some(Score { value: 4 }));
    assert!(sound.is_none());
    assert!(events.is_empty());
    assert!(absent.is_none());
}

#[test]
fn despawn_player_removes_the_entity() {
    let mut player = Some(Player {
        position: Vec2 { x: 0, y: 0 },
    });
    despawn_player(&mut player);
    assert!(player.is_none());
}

#[test]
fn despawn_all_stars_marks_everything() {
    let mut stars = vec![
        Star {
            id: 1,
            position: Vec2 { x: 0, y: 0 },
            scheduled_despawn: false,
        },
        Star {
            id: 2,
            position: Vec2 { x: 1, y: 1 },
            scheduled_despawn: false,
        },
    ];
    despawn_all_stars(&mut stars);
    assert!(stars.iter().all(|s| s.scheduled_despawn));
    cleanup_entity(&mut stars);
    assert!(stars.is_empty());
}
