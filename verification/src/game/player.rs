//! The player: keyboard-driven motion, and the collision events that drive
//! score, despawning and game over.

use vstd::prelude::*;

verus! {

use crate::game::enemy::{Enemy, ENEMY_SIZE};
use crate::game::score::{GameOver, Score};
use crate::game::star::{Star, STAR_SIZE};
use crate::game::{Confined, Size};
use crate::helpers::{AudioHelper, MovementHelper, Window, WindowHelper};
use crate::math::{collided, Vec2, MAX_TICK_MS};

/// Registers the player systems.
pub struct PlayerPlugin;

/// Emitted once per enemy the player touches, carrying the score at that
/// moment.
#[derive(Clone, Copy, Debug, PartialEq, Eq, Structural)]
pub struct CollidedWithEnemy {
    pub score: u32,
}

/// Emitted once per star the player touches, naming the star.
#[derive(Clone, Copy, Debug, PartialEq, Eq, Structural)]
pub struct CollidedWithStar {
    pub star_entity: u64,
}

/// Player speed, in pixels per second.
pub const PLAYER_SPEED: i64 = 500;

/// Player diameter, in thousandths of a pixel (64 pixels).
pub const PLAYER_SIZE: i64 = 64_000;

/// The player-controlled sprite.
#[derive(Clone, Copy, Debug, PartialEq, Eq, Structural)]
pub struct Player {
    pub position: Vec2,
}

/// Everything the player entity spawns with.
pub struct PlayerBundle {
    pub name: String,
    pub player: Player,
    pub confined: Confined,
    pub size: Size,
}

impl PlayerBundle {
    /// The player starts at the center of the window, confined, at its
    /// fixed size.
    pub fn at_center_of_the_screen(window: &Window) -> (b: PlayerBundle)
        requires
            window.wf(),
        ensures
            b.name@ == "Player"@,
            b.player.position.x == window.width as int / 2,
            b.player.position.y == window.height as int / 2,
            b.size.value == PLAYER_SIZE,
    {
        PlayerBundle {
            name: "Player".to_owned(),
            player: Player { position: WindowHelper::center(window) },
            confined: Confined,
            size: (Size { value: PLAYER_SIZE }),
        }
    }
}

/// A fresh player entity for the start of a round.
pub fn spawn_player(window: &Window) -> (b: PlayerBundle)
    requires
        window.wf(),
    ensures
        b.name@ == "Player"@,
        b.player.position.x == window.width as int / 2,
        b.player.position.y == window.height as int / 2,
        b.size.value == PLAYER_SIZE,
{
    PlayerBundle::at_center_of_the_screen(window)
}

/// One frame of keyboard-driven motion: the player advances by the
/// requested direction times the player speed times the time step.
pub fn movement(
    player: &mut Player,
    left: bool,
    right: bool,
    up: bool,
    down: bool,
    dt_ms: u64,
)
    requires
        old(player).position.in_pos_range(),
        dt_ms <= MAX_TICK_MS,
    ensures
        final(player).position.x == old(player).position.x + ((if right {
            1int
        } else {
            0int
        }) - (if left {
            1int
        } else {
            0int
        })) * PLAYER_SPEED * dt_ms,
        final(player).position.y == old(player).position.y + ((if up {
            1int
        } else {
            0int
        }) - (if down {
            1int
        } else {
            0int
        })) * PLAYER_SPEED * dt_ms,
{
    let movement_direction = MovementHelper::handle_input(left, right, up, down);
    player.position = MovementHelper::translate(
        player.position,
        movement_direction,
        PLAYER_SPEED,
        dt_ms,
    );
}

/// The player overlaps this enemy.
pub open spec fn enemy_hit(player: Player, enemy: Enemy) -> bool {
    collided(PLAYER_SIZE as int, player.position, ENEMY_SIZE as int, enemy.position)
}

/// The events of one frame of enemy collisions: one per overlapped enemy,
/// in order, each carrying the current score (zero when no score exists).
pub open spec fn enemy_hit_events(player: Player, enemies: Seq<Enemy>, score: u32) -> Seq<
    CollidedWithEnemy,
>
    decreases enemies.len(),
{
    if enemies.len() == 0 {
        Seq::empty()
    } else {
        let rest = enemy_hit_events(player, enemies.drop_last(), score);
        if enemy_hit(player, enemies.last()) {
            rest.push(CollidedWithEnemy { score })
        } else {
            rest
        }
    }
}

/// The current score, or zero while no score resource exists.
pub open spec fn score_or_zero(score: Option<Score>) -> u32 {
    match score {
        Some(s) => s.value,
        None => 0,
    }
}

/// Emits one `CollidedWithEnemy` event per enemy the player overlaps.
pub fn on_hit_enemy_emit_collide_event(
    player: &Player,
    enemies: &Vec<Enemy>,
    score: &Option<Score>,
) -> (events: Vec<CollidedWithEnemy>)
    requires
        player.position.in_coord_range(),
        forall|j: int|
            0 <= j < enemies@.len() ==> (#[trigger] enemies@[j]).position.in_coord_range(),
    ensures
        events@ == enemy_hit_events(*player, enemies@, score_or_zero(*score)),
{
    let score_value: u32 = match score {
        Some(s) => s.value,
        None => 0,
    };
    let mut events: Vec<CollidedWithEnemy> = Vec::new();
    let mut i: usize = 0;
    while i < enemies.len()
        invariant
            i <= enemies@.len(),
            score_value == score_or_zero(*score),
            player.position.in_coord_range(),
            forall|j: int|
                0 <= j < enemies@.len() ==> (#[trigger] enemies@[j]).position.in_coord_range(),
            events@ == enemy_hit_events(*player, enemies@.take(i as int), score_value),
        decreases enemies@.len() - i,
    {
        let is_collided = MovementHelper::is_collided(
            PLAYER_SIZE,
            player.position,
            ENEMY_SIZE,
            enemies[i].position,
        );
        if is_collided {
            events.push(CollidedWithEnemy { score: score_value });
        }
        proof {
            assert(enemies@.take(i + 1).drop_last() =~= enemies@.take(i as int));
            assert(enemies@.take(i + 1).last() == enemies@[i as int]);
        }
        i += 1;
    }
    proof {
        assert(enemies@.take(enemies@.len() as int) =~= enemies@);
    }
    events
}

/// Handles an enemy touching the player in one pass: the game-over sound
/// plays once, the player entity leaves, and one `GameOver` event per
/// touched enemy carries the final score — but only while a score exists.
pub fn on_player_hit_enemy(
    player: &mut Option<Player>,
    enemies: &Vec<Enemy>,
    score: &Option<Score>,
) -> (r: (Option<String>, Vec<GameOver>))
    requires
        *old(player) matches Some(p) ==> p.position.in_coord_range(),
        forall|j: int| 0 <= j < enemies@.len() ==> (#[trigger] enemies@[j]).position.in_coord_range(),
    ensures
        old(player).is_none() ==> *final(player) == *old(player) && r.0.is_none() && r.1@.len() == 0,
        *old(player) matches Some(p) ==> {
            let hits = enemy_hit_events(p, enemies@, score_or_zero(*score)).len();
            &&& r.0.is_some() == (hits > 0)
            &&& *final(player) == (if hits > 0 {
                None::<Player>
            } else {
                *old(player)
            })
            &&& r.1@.len() == (if score.is_some() {
                hits
            } else {
                0
            })
        },
        r.0 matches Some(s) ==> s@ == "audio/explosionCrunch_000.ogg"@,
        forall|k: int| 0 <= k < r.1@.len() ==> #[trigger] r.1@[k] == (GameOver { score: score_or_zero(*score) }),
{
    let current: Option<Player> = *player;
    match current {
        Some(p) => {
            let events = on_hit_enemy_emit_collide_event(&p, enemies, score);
            let any: bool = events.len() > 0;
            let sound = if any {
                Some(AudioHelper::game_over_sound())
            } else {
                None
            };
            if any {
                *player = None;
            }
            let mut game_overs: Vec<GameOver> = Vec::new();
            match score {
                Some(s) => {
                    let mut i: usize = 0;
                    while i < events.len()
                        invariant
                            i <= events@.len(),
                            game_overs@.len() == i,
                            forall|k: int| 0 <= k < i ==> #[trigger] game_overs@[k] == (GameOver { score: s.value }),
                        decreases events@.len() - i,
                    {
                        game_overs.push(GameOver { score: s.value });
                        i += 1;
                    }
                },
                None => {},
            }
            (sound, game_overs)
        },
        None => (None, Vec::new()),
    }
}

/// The player overlaps this star, and the star is still live.
pub open spec fn star_hit(player: Player, star: Star) -> bool {
    !star.scheduled_despawn && collided(
        PLAYER_SIZE as int,
        player.position,
        STAR_SIZE as int,
        star.position,
    )
}

/// The events of one frame of star collisions: one per overlapped live
/// star, in order, each naming its star.
pub open spec fn star_hit_events(player: Player, stars: Seq<Star>) -> Seq<CollidedWithStar>
    decreases stars.len(),
{
    if stars.len() == 0 {
        Seq::empty()
    } else {
        let rest = star_hit_events(player, stars.drop_last());
        if star_hit(player, stars.last()) {
            rest.push(CollidedWithStar { star_entity: stars.last().id })
        } else {
            rest
        }
    }
}

/// Emits one `CollidedWithStar` event per live star the player overlaps.
pub fn on_hit_star_emit_collide_event(player: &Player, stars: &Vec<Star>) -> (events: Vec<
    CollidedWithStar,
>)
    requires
        player.position.in_coord_range(),
        forall|j: int| 0 <= j < stars@.len() ==> (#[trigger] stars@[j]).position.in_coord_range(),
    ensures
        events@ == star_hit_events(*player, stars@),
{
    let mut events: Vec<CollidedWithStar> = Vec::new();
    let mut i: usize = 0;
    while i < stars.len()
        invariant
            i <= stars@.len(),
            player.position.in_coord_range(),
            forall|j: int|
                0 <= j < stars@.len() ==> (#[trigger] stars@[j]).position.in_coord_range(),
            events@ == star_hit_events(*player, stars@.take(i as int)),
        decreases stars@.len() - i,
    {
        let scheduled = stars[i].scheduled_despawn;
        let is_collided = !scheduled && MovementHelper::is_collided(
            PLAYER_SIZE,
            player.position,
            STAR_SIZE,
            stars[i].position,
        );
        if is_collided {
            let id = stars[i].id;
            events.push(CollidedWithStar { star_entity: id });
        }
        proof {
            assert(stars@.take(i + 1).drop_last() =~= stars@.take(i as int));
            assert(stars@.take(i + 1).last() == stars@[i as int]);
        }
        i += 1;
    }
    proof {
        assert(stars@.take(stars@.len() as int) =~= stars@);
    }
    events
}

/// Any collision with an enemy removes the player.
pub fn on_enemy_collide_despawn_player(
    player: &mut Option<Player>,
    events: &Vec<CollidedWithEnemy>,
)
    ensures
        *final(player) == (if events@.len() > 0 {
            None::<Player>
        } else {
            *old(player)
        }),
{
    if events.len() > 0 {
        *player = None;
    }
}

/// Any collision with an enemy plays the game-over sound once.
pub fn on_enemy_collide_play_game_over_sound(events: &Vec<CollidedWithEnemy>) -> (sound: Option<
    String,
>)
    ensures
        sound.is_some() == (events@.len() > 0),
        sound matches Some(s) ==> s@ == "audio/explosionCrunch_000.ogg"@,
{
    if events.len() > 0 {
        Some(AudioHelper::game_over_sound())
    } else {
        None
    }
}

/// Some event names the star with this id.
pub open spec fn event_names_star(events: Seq<CollidedWithStar>, id: u64) -> bool {
    exists|k: int| 0 <= k < events.len() && (#[trigger] events[k]).star_entity == id
}

/// The star after the despawn pass: marked when some event names it,
/// otherwise untouched.
pub open spec fn marked_star(s: Star, events: Seq<CollidedWithStar>) -> Star {
    Star {
        id: s.id,
        position: s.position,
        scheduled_despawn: s.scheduled_despawn || event_names_star(events, s.id),
    }
}

/// Every star named by a collision event is marked for the end-of-frame
/// despawn sweep; other stars are untouched.
pub fn on_star_collide_despawn_star(stars: &mut Vec<Star>, events: &Vec<CollidedWithStar>)
    ensures
        final(stars)@.len() == old(stars)@.len(),
        forall|j: int| 0 <= j < old(stars)@.len() ==> #[trigger] final(stars)@[j] == marked_star(old(stars)@[j], events@),
{
    let ghost orig = stars@;
    let mut i: usize = 0;
    while i < stars.len()
        invariant
            i <= stars@.len(),
            stars@.len() == orig.len(),
            forall|j: int| i <= j < stars@.len() ==> #[trigger] stars@[j] == orig[j],
            forall|j: int| 0 <= j < i ==> #[trigger] stars@[j] == marked_star(orig[j], events@),
        decreases stars@.len() - i,
    {
        let id = stars[i].id;
        if contains_star_event(events, id) {
            stars[i].scheduled_despawn = true;
        }
        i += 1;
    }
}

/// Whether some event names the star with this id.
fn contains_star_event(events: &Vec<CollidedWithStar>, id: u64) -> (r: bool)
    ensures
        r == event_names_star(events@, id),
{
    let mut k: usize = 0;
    while k < events.len()
        invariant
            k <= events@.len(),
            forall|m: int| 0 <= m < k ==> (#[trigger] events@[m]).star_entity != id,
        decreases events@.len() - k,
    {
        if events[k].star_entity == id {
            return true;
        }
        k += 1;
    }
    false
}

/// Every star collision plays the pickup sound once.
pub fn on_star_collide_play_star_despawn_sound(events: &Vec<CollidedWithStar>) -> (sound: Option<
    String,
>)
    ensures
        sound.is_some() == (events@.len() > 0),
        sound matches Some(s) ==> s@ == "audio/laserLarge_000.ogg"@,
{
    if events.len() > 0 {
        Some(AudioHelper::obtain_star_sound())
    } else {
        None
    }
}

/// Every star collision is worth one point.
pub fn on_star_collide_event_add_score(score: &mut Option<Score>, events: &Vec<CollidedWithStar>)
    requires
        *old(score) matches Some(s) ==> s.value + events@.len() <= u32::MAX,
    ensures
        *old(score) matches Some(s) ==> *final(score) == Some(
            (Score { value: (s.value + events@.len()) as u32 }),
        ),
        old(score).is_none() ==> final(score).is_none(),
{
    let current: Option<Score> = *score;
    match current {
        Some(s) => {
            let mut value: u32 = s.value;
            let mut i: usize = 0;
            while i < events.len()
                invariant
                    i <= events@.len(),
                    s.value + events@.len() <= u32::MAX,
                    value == s.value + i,
                decreases events@.len() - i,
            {
                value = value + 1;
                i += 1;
            }
            *score = Some(Score { value });
        },
        None => {},
    }
}

/// The player entity leaves at the end of a round.
pub fn despawn_player(player: &mut Option<Player>)
    ensures
        *final(player) == None::<Player>,
{
    *player = None;
}

} // verus!
