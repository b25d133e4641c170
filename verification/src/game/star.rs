//! Stars: collectible sprites that appear at random positions, both as an
//! initial batch and over time on a one-second timer.

use vstd::prelude::*;

verus! {

use crate::helpers::{RandomHelper, Window};
use crate::math::Vec2;
use crate::timer::RepeatingTimer;

/// Registers the star lifecycle systems.
pub struct StarPlugin;

/// How many stars a round starts with.
pub const NUMBER_OF_STARS: usize = 10;

/// Star diameter, in thousandths of a pixel (30 pixels).
pub const STAR_SIZE: i64 = 30_000;

/// A collectible star; entities carry a fresh id so collision events can
/// name them.
#[derive(Clone, Copy, Debug, PartialEq, Eq, Structural)]
pub struct Star {
    pub id: u64,
    pub position: Vec2,
    pub scheduled_despawn: bool,
}

impl Star {
    pub open spec fn in_window(self, window: Window) -> bool {
        0 <= self.position.x < window.width && 0 <= self.position.y < window.height
    }
}

/// The repeating one-second timer that paces star spawning.
pub struct StarSpawnTimer {
    pub timer: RepeatingTimer,
}

impl Default for StarSpawnTimer {
    fn default() -> (t: Self)
        ensures
            t.timer.period_ms == 1_000,
            t.timer.elapsed_ms == 0,
            !t.timer.finished_this_tick,
            t.timer.wf(),
    {
        StarSpawnTimer { timer: RepeatingTimer::new(1_000) }
    }
}

/// A fresh star at a random position inside the window.
fn spawn_star(window: &Window, id: u64) -> (s: Star)
    requires
        window.wf(),
    ensures
        s.id == id,
        s.in_window(*window),
        !s.scheduled_despawn,
{
    let x: i64 = RandomHelper::random_below(window.width as u64) as i64;
    let y: i64 = RandomHelper::random_below(window.height as u64) as i64;
    Star { id, position: Vec2 { x, y }, scheduled_despawn: false }
}

/// The initial batch of stars, with ids counted off from `*next_id`.
pub fn spawn_initial_stars(window: &Window, next_id: &mut u64) -> (stars: Vec<Star>)
    requires
        window.wf(),
        *next_id + NUMBER_OF_STARS <= u64::MAX,
    ensures
        stars@.len() == NUMBER_OF_STARS,
        forall|j: int|
            0 <= j < stars@.len() ==> (#[trigger] stars@[j]).id == *old(next_id) + j
                && stars@[j].in_window(*window) && !stars@[j].scheduled_despawn,
        *final(next_id) == *old(next_id) + NUMBER_OF_STARS,
{
    let start: u64 = *next_id;
    let mut stars: Vec<Star> = Vec::new();
    let mut i: usize = 0;
    while i < NUMBER_OF_STARS
        invariant
            i <= NUMBER_OF_STARS,
            stars@.len() == i,
            start + NUMBER_OF_STARS <= u64::MAX,
            window.wf(),
            forall|j: int|
                0 <= j < i ==> (#[trigger] stars@[j]).id == start + j && stars@[j].in_window(
                    *window,
                ) && !stars@[j].scheduled_despawn,
        decreases NUMBER_OF_STARS - i,
    {
        let s = spawn_star(window, start + i as u64);
        stars.push(s);
        i += 1;
    }
    *next_id = start + NUMBER_OF_STARS as u64;
    stars
}

/// Advances the star spawn timer by one frame.
pub fn tick_spawn_stars_overtime(star_spawn_timer: &mut StarSpawnTimer, dt_ms: u64)
    requires
        old(star_spawn_timer).timer.wf(),
        dt_ms <= crate::math::MAX_TICK_MS,
    ensures
        final(star_spawn_timer).timer == old(star_spawn_timer).timer.spec_tick(dt_ms),
        final(star_spawn_timer).timer.wf(),
{
    star_spawn_timer.timer.tick(dt_ms);
}

/// When the timer has just elapsed, one more star appears at a random
/// position; otherwise nothing changes.
pub fn spawn_stars_overtime(
    star_spawn_timer: &StarSpawnTimer,
    window: &Window,
    stars: &mut Vec<Star>,
    next_id: &mut u64,
) -> (spawned: bool)
    requires
        window.wf(),
        *next_id < u64::MAX,
    ensures
        spawned == star_spawn_timer.timer.finished_this_tick,
        forall|j: int| 0 <= j < old(stars)@.len() ==> final(stars)@[j] == old(stars)@[j],
        spawned ==> final(stars)@.len() == old(stars)@.len() + 1,
        spawned ==> final(stars)@.last().id == *old(next_id),
        spawned ==> final(stars)@.last().in_window(*window),
        spawned ==> !final(stars)@.last().scheduled_despawn,
        spawned ==> *final(next_id) == *old(next_id) + 1,
        !spawned ==> final(stars)@ == old(stars)@ && *final(next_id) == *old(next_id),
{
    if star_spawn_timer.timer.just_finished() {
        let s = spawn_star(window, *next_id);
        stars.push(s);
        *next_id = *next_id + 1;
        true
    } else {
        false
    }
}

/// The stars that survive the end-of-frame despawn sweep, in order.
pub open spec fn live_stars(stars: Seq<Star>) -> Seq<Star>
    decreases stars.len(),
{
    if stars.len() == 0 {
        Seq::empty()
    } else {
        let rest = live_stars(stars.drop_last());
        if stars.last().scheduled_despawn {
            rest
        } else {
            rest.push(stars.last())
        }
    }
}

/// Marks every star for the end-of-frame despawn sweep.
pub fn despawn_all_stars(stars: &mut Vec<Star>)
    ensures
        final(stars)@.len() == old(stars)@.len(),
        forall|j: int| 0 <= j < old(stars)@.len() ==> #[trigger] final(stars)@[j] == (Star { scheduled_despawn: true, ..old(stars)@[j] }),
{
    let ghost orig = stars@;
    let mut i: usize = 0;
    while i < stars.len()
        invariant
            i <= stars@.len(),
            stars@.len() == orig.len(),
            forall|j: int| 0 <= j < i ==> #[trigger] stars@[j] == (Star { scheduled_despawn: true, ..orig[j] }),
            forall|j: int| i <= j < stars@.len() ==> #[trigger] stars@[j] == orig[j],
        decreases stars@.len() - i,
    {
        stars[i].scheduled_despawn = true;
        i += 1;
    }
}

} // verus!
