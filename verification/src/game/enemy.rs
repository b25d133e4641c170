//! Enemies: sprites that drift in a fixed direction, bounce off the window
//! edges, and appear at random positions both initially and over time on a
//! five-second timer.

use vstd::prelude::*;

verus! {

use crate::helpers::{MovementHelper, RandomHelper, Window};
use crate::math::{clamped, Vec2, MAX_TICK_MS};
use crate::timer::RepeatingTimer;

/// Registers the enemy lifecycle systems.
pub struct EnemyPlugin;

/// How many enemies a round starts with.
pub const NUMBER_OF_ENEMIES: usize = 4;

/// Enemy speed, in pixels per second.
pub const ENEMY_SPEED: i64 = 200;

/// Enemy diameter, in thousandths of a pixel (64 pixels).
pub const ENEMY_SIZE: i64 = 64_000;

/// Enemy spawn period, in milliseconds.
pub const ENEMY_SPAWN_TIME: u64 = 5_000;

/// A roaming enemy: a position and the direction it drifts in.
#[derive(Clone, Copy, Debug, PartialEq, Eq, Structural)]
pub struct Enemy {
    pub position: Vec2,
    pub direction: Vec2,
}

impl Enemy {
    pub open spec fn in_window(self, window: Window) -> bool {
        0 <= self.position.x < window.width && 0 <= self.position.y < window.height
    }

    /// A random drift direction: unit steps, never standing still, and
    /// initially towards positive x and y.
    pub fn randomize_direction() -> (d: Vec2)
        ensures
            0 <= d.x <= 1,
            0 <= d.y <= 1,
            !(d.x == 0 && d.y == 0),
            d.is_direction(),
    {
        let x: i64 = RandomHelper::random_below(2) as i64;
        let y: i64 = RandomHelper::random_below(2) as i64;
        if x == 0 && y == 0 {
            Vec2 { x: 1, y: 1 }
        } else {
            Vec2 { x, y }
        }
    }

    /// A fresh enemy at a random position inside the window, with a random
    /// drift direction.
    pub fn at_randomized_location(window: &Window) -> (e: Enemy)
        requires
            window.wf(),
        ensures
            e.in_window(*window),
            e.direction.is_direction(),
            !(e.direction.x == 0 && e.direction.y == 0),
    {
        let random_x: i64 = RandomHelper::random_below(window.width as u64) as i64;
        let random_y: i64 = RandomHelper::random_below(window.height as u64) as i64;
        Enemy {
            position: Vec2 { x: random_x, y: random_y },
            direction: Self::randomize_direction(),
        }
    }
}

/// The repeating five-second timer that paces enemy spawning.
pub struct EnemySpawnTimer {
    pub timer: RepeatingTimer,
}

impl Default for EnemySpawnTimer {
    fn default() -> (t: Self)
        ensures
            t.timer.period_ms == ENEMY_SPAWN_TIME,
            t.timer.elapsed_ms == 0,
            !t.timer.finished_this_tick,
            t.timer.wf(),
    {
        EnemySpawnTimer { timer: RepeatingTimer::new(ENEMY_SPAWN_TIME) }
    }
}

/// The initial batch of enemies.
pub fn spawn_initial_enemies(window: &Window) -> (enemies: Vec<Enemy>)
    requires
        window.wf(),
    ensures
        enemies@.len() == NUMBER_OF_ENEMIES,
        forall|j: int|
            0 <= j < enemies@.len() ==> (#[trigger] enemies@[j]).in_window(*window)
                && enemies@[j].direction.is_direction(),
{
    let mut enemies: Vec<Enemy> = Vec::new();
    let mut i: usize = 0;
    while i < NUMBER_OF_ENEMIES
        invariant
            i <= NUMBER_OF_ENEMIES,
            enemies@.len() == i,
            window.wf(),
            forall|j: int|
                0 <= j < i ==> (#[trigger] enemies@[j]).in_window(*window)
                    && enemies@[j].direction.is_direction(),
        decreases NUMBER_OF_ENEMIES - i,
    {
        let e = Enemy::at_randomized_location(window);
        enemies.push(e);
        i += 1;
    }
    enemies
}

/// The enemy one frame of drift later: its position advanced by its
/// direction times the enemy speed times the time step.
pub open spec fn moved_enemy(e: Enemy, dt_ms: u64) -> Enemy {
    Enemy {
        position: Vec2 {
            x: (e.position.x + e.direction.x * ENEMY_SPEED * dt_ms) as i64,
            y: (e.position.y + e.direction.y * ENEMY_SPEED * dt_ms) as i64,
        },
        direction: e.direction,
    }
}

/// One frame of drift: every enemy advances by its direction times the
/// enemy speed times the time step.
pub fn enemy_movement(enemies: &mut Vec<Enemy>, dt_ms: u64)
    requires
        dt_ms <= MAX_TICK_MS,
        forall|j: int|
            0 <= j < old(enemies)@.len() ==> (#[trigger] old(enemies)@[j]).position.in_pos_range()
                && old(enemies)@[j].direction.is_direction(),
    ensures
        final(enemies)@.len() == old(enemies)@.len(),
        forall|j: int| 0 <= j < old(enemies)@.len() ==> #[trigger] final(enemies)@[j] == moved_enemy(old(enemies)@[j], dt_ms),
{
    let ghost orig = enemies@;
    let mut i: usize = 0;
    while i < enemies.len()
        invariant
            i <= enemies@.len(),
            enemies@.len() == orig.len(),
            dt_ms <= MAX_TICK_MS,
            forall|j: int|
                0 <= j < orig.len() ==> (#[trigger] orig[j]).position.in_pos_range()
                    && orig[j].direction.is_direction(),
            forall|j: int| i <= j < enemies@.len() ==> #[trigger] enemies@[j] == orig[j],
            forall|j: int| 0 <= j < i ==> #[trigger] enemies@[j] == moved_enemy(orig[j], dt_ms),
        decreases enemies@.len() - i,
    {
        let enemy_direction = enemies[i].direction;
        let p = MovementHelper::translate(enemies[i].position, enemy_direction, ENEMY_SPEED, dt_ms);
        enemies[i].position = p;
        i += 1;
    }
}

/// The enemy touches or crosses the left or right confinement bound.
pub open spec fn out_of_bound_x(position: Vec2, window: Window) -> bool {
    position.x <= ENEMY_SIZE / 2 || position.x >= window.width - ENEMY_SIZE / 2
}

/// The enemy touches or crosses the lower or upper confinement bound.
pub open spec fn out_of_bound_y(position: Vec2, window: Window) -> bool {
    position.y <= ENEMY_SIZE / 2 || position.y >= window.height - ENEMY_SIZE / 2
}

/// The enemy touches or crosses some confinement bound.
pub open spec fn out_of_bound(position: Vec2, window: Window) -> bool {
    out_of_bound_x(position, window) || out_of_bound_y(position, window)
}

/// The direction after bouncing: each component that is out of bound flips.
pub open spec fn bounced_direction(e: Enemy, window: Window) -> Vec2 {
    Vec2 {
        x: if out_of_bound_x(e.position, window) {
            (-e.direction.x) as i64
        } else {
            e.direction.x
        },
        y: if out_of_bound_y(e.position, window) {
            (-e.direction.y) as i64
        } else {
            e.direction.y
        },
    }
}

/// The enemy after the bounce check: same position, bounced direction.
pub open spec fn bounced_enemy(e: Enemy, window: Window) -> Enemy {
    Enemy { position: e.position, direction: bounced_direction(e, window) }
}

/// Bouncing is an involution: checking the same position twice flips each
/// affected component back.
pub proof fn lemma_bounce_involution(e: Enemy, window: Window)
    requires
        e.direction.is_direction(),
    ensures
        bounced_enemy(bounced_enemy(e, window), window) == e,
{
}

/// A confined enemy stands inside any window that can hold it.
pub proof fn lemma_confined_enemy_in_window(e: Enemy, window: Window)
    requires
        window.wf(),
        window.width >= ENEMY_SIZE,
        window.height >= ENEMY_SIZE,
    ensures
        confined_enemy(e, window).in_window(window),
{
}

/// Flips the drift direction of every enemy that reached a window edge.
/// Returns whether any enemy bounced, which is when the bounce sound plays.
pub fn update_enemy_direction_when_out_of_bound(enemies: &mut Vec<Enemy>, window: &Window) -> (any:
    bool)
    requires
        window.wf(),
        forall|j: int| 0 <= j < old(enemies)@.len() ==> (#[trigger] old(enemies)@[j]).direction.is_direction(),
    ensures
        final(enemies)@.len() == old(enemies)@.len(),
        forall|j: int| 0 <= j < old(enemies)@.len() ==> #[trigger] final(enemies)@[j] == bounced_enemy(old(enemies)@[j], *window),
        any == exists|j: int| 0 <= j < old(enemies)@.len() && out_of_bound((#[trigger] old(enemies)@[j]).position, *window),
{
    let ghost orig = enemies@;
    let mut any: bool = false;
    let mut i: usize = 0;
    let half_unit_size: i64 = ENEMY_SIZE / 2;
    let x_min: i64 = half_unit_size;
    let x_max: i64 = window.width - half_unit_size;
    let y_min: i64 = half_unit_size;
    let y_max: i64 = window.height - half_unit_size;
    while i < enemies.len()
        invariant
            i <= enemies@.len(),
            enemies@.len() == orig.len(),
            window.wf(),
            x_min == ENEMY_SIZE / 2,
            x_max == window.width - ENEMY_SIZE / 2,
            y_min == ENEMY_SIZE / 2,
            y_max == window.height - ENEMY_SIZE / 2,
            forall|j: int| 0 <= j < orig.len() ==> (#[trigger] orig[j]).direction.is_direction(),
            forall|j: int| i <= j < enemies@.len() ==> #[trigger] enemies@[j] == orig[j],
            forall|j: int| 0 <= j < i ==> #[trigger] enemies@[j] == bounced_enemy(orig[j], *window),
            any == exists|j: int| 0 <= j < i && out_of_bound((#[trigger] orig[j]).position, *window),
        decreases enemies@.len() - i,
    {
        let position = enemies[i].position;
        let mut is_direction_changed: bool = false;
        if position.x <= x_min || position.x >= x_max {
            let flipped: i64 = -enemies[i].direction.x;
            enemies[i].direction.x = flipped;
            is_direction_changed = true;
        }
        if position.y <= y_min || position.y >= y_max {
            let flipped: i64 = -enemies[i].direction.y;
            enemies[i].direction.y = flipped;
            is_direction_changed = true;
        }
        if is_direction_changed {
            any = true;
        }
        proof {
            if out_of_bound(orig[i as int].position, *window) {
                assert(exists|j: int| 0 <= j < i + 1 && out_of_bound((#[trigger] orig[j]).position, *window));
            }
        }
        i += 1;
    }
    any
}

/// The enemy forced back inside the window, keeping half its size from
/// every edge.
pub open spec fn confined_enemy(e: Enemy, window: Window) -> Enemy {
    Enemy {
        position: Vec2 {
            x: clamped(e.position.x as int, ENEMY_SIZE / 2, window.width - ENEMY_SIZE / 2) as i64,
            y: clamped(e.position.y as int, ENEMY_SIZE / 2, window.height - ENEMY_SIZE / 2) as i64,
        },
        direction: e.direction,
    }
}

/// Forces every enemy back inside the window, keeping half its size from
/// every edge.
pub fn confine_enemy_movement(enemies: &mut Vec<Enemy>, window: &Window)
    requires
        window.wf(),
    ensures
        final(enemies)@.len() == old(enemies)@.len(),
        forall|j: int| 0 <= j < old(enemies)@.len() ==> #[trigger] final(enemies)@[j] == confined_enemy(old(enemies)@[j], *window),
{
    let ghost orig = enemies@;
    let mut i: usize = 0;
    while i < enemies.len()
        invariant
            i <= enemies@.len(),
            enemies@.len() == orig.len(),
            window.wf(),
            forall|j: int| i <= j < enemies@.len() ==> #[trigger] enemies@[j] == orig[j],
            forall|j: int| 0 <= j < i ==> #[trigger] enemies@[j] == confined_enemy(orig[j], *window),
        decreases enemies@.len() - i,
    {
        let confined = MovementHelper::confine(window, enemies[i].position, ENEMY_SIZE);
        enemies[i].position = confined;
        i += 1;
    }
}

/// Advances the enemy spawn timer by one frame.
pub fn tick_spawn_enemy_overtime(enemy_spawn_timer: &mut EnemySpawnTimer, dt_ms: u64)
    requires
        old(enemy_spawn_timer).timer.wf(),
        dt_ms <= MAX_TICK_MS,
    ensures
        final(enemy_spawn_timer).timer == old(enemy_spawn_timer).timer.spec_tick(dt_ms),
        final(enemy_spawn_timer).timer.wf(),
{
    enemy_spawn_timer.timer.tick(dt_ms);
}

/// When the timer has just elapsed, one more enemy appears at a random
/// position; otherwise nothing changes.
pub fn spawn_enemy_overtime(
    enemy_spawn_timer: &EnemySpawnTimer,
    window: &Window,
    enemies: &mut Vec<Enemy>,
) -> (spawned: bool)
    requires
        window.wf(),
    ensures
        spawned == enemy_spawn_timer.timer.finished_this_tick,
        forall|j: int| 0 <= j < old(enemies)@.len() ==> final(enemies)@[j] == old(enemies)@[j],
        spawned ==> final(enemies)@.len() == old(enemies)@.len() + 1,
        spawned ==> final(enemies)@.last().in_window(*window),
        spawned ==> final(enemies)@.last().direction.is_direction(),
        !spawned ==> final(enemies)@ == old(enemies)@,
{
    if enemy_spawn_timer.timer.just_finished() {
        let e = Enemy::at_randomized_location(window);
        enemies.push(e);
        true
    } else {
        false
    }
}

/// Removes every enemy at the end of a round.
pub fn despawn_all_enemies(enemies: &mut Vec<Enemy>)
    ensures
        final(enemies)@.len() == 0,
{
    enemies.clear();
}

} // verus!
