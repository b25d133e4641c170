//! Small helpers shared by every part of the game: the window model,
//! keyboard-to-direction mapping, confinement and collision wrappers,
//! random draws, asset names and decimal rendering.

use vstd::prelude::*;

verus! {

use crate::math::{clamped, collided, Vec2, MAX_DIM, MAX_SPEED, MAX_TICK_MS};
use vstd::string::StringExecFns;

/// The playing field, in thousandths of a pixel.
#[derive(Clone, Copy, Debug, PartialEq, Eq, Structural)]
pub struct Window {
    pub width: i64,
    pub height: i64,
}

impl Window {
    pub open spec fn wf(self) -> bool {
        0 < self.width <= MAX_DIM && 0 < self.height <= MAX_DIM
    }
}

pub struct WindowHelper {}

impl WindowHelper {
    /// The center of the window, where the camera and the player start.
    pub fn center(window: &Window) -> (c: Vec2)
        requires
            window.wf(),
        ensures
            c.x == window.width as int / 2,
            c.y == window.height as int / 2,
    {
        Vec2 { x: window.width / 2, y: window.height / 2 }
    }
}

pub struct MovementHelper {}

impl MovementHelper {
    /// The direction the four movement keys ask for: a unit step per axis,
    /// opposite keys cancelling each other.
    pub fn handle_input(left: bool, right: bool, up: bool, down: bool) -> (d: Vec2)
        ensures
            d.x == (if right { 1int } else { 0int }) - (if left { 1int } else { 0int }),
            d.y == (if up { 1int } else { 0int }) - (if down { 1int } else { 0int }),
            d.is_direction(),
    {
        let mut d = Vec2 { x: 0, y: 0 };
        if left {
            d.x = d.x - 1;
        }
        if right {
            d.x = d.x + 1;
        }
        if up {
            d.y = d.y + 1;
        }
        if down {
            d.y = d.y - 1;
        }
        d
    }

    /// One frame of straight-line motion: the position advances by the
    /// direction times the speed times the time step.
    pub fn translate(position: Vec2, direction: Vec2, speed: i64, dt_ms: u64) -> (p: Vec2)
        requires
            position.in_pos_range(),
            direction.is_direction(),
            0 <= speed <= MAX_SPEED,
            dt_ms <= MAX_TICK_MS,
        ensures
            p.x == position.x + direction.x * speed * dt_ms,
            p.y == position.y + direction.y * speed * dt_ms,
    {
        proof {
            assert(-1_000 <= direction.x * speed <= 1_000) by (nonlinear_arith)
                requires
                    -1 <= direction.x <= 1,
                    0 <= speed <= MAX_SPEED,
            ;
            assert(-1_000 <= direction.y * speed <= 1_000) by (nonlinear_arith)
                requires
                    -1 <= direction.y <= 1,
                    0 <= speed <= MAX_SPEED,
            ;
        }
        let step_x: i64 = direction.x * speed;
        let step_y: i64 = direction.y * speed;
        proof {
            assert(-1_000_000_000 <= step_x * dt_ms <= 1_000_000_000) by (nonlinear_arith)
                requires
                    -1_000 <= step_x <= 1_000,
                    0 <= dt_ms <= MAX_TICK_MS,
            ;
            assert(-1_000_000_000 <= step_y * dt_ms <= 1_000_000_000) by (nonlinear_arith)
                requires
                    -1_000 <= step_y <= 1_000,
                    0 <= dt_ms <= MAX_TICK_MS,
            ;
        }
        Vec2 { x: position.x + step_x * (dt_ms as i64), y: position.y + step_y * (dt_ms as i64) }
    }

    /// The position forced back into the window, keeping a margin of half
    /// the unit's size from every edge.
    pub fn confine(window: &Window, unit_translation: Vec2, unit_size: i64) -> (p: Vec2)
        requires
            window.wf(),
            0 <= unit_size <= MAX_DIM,
        ensures
            p.x == clamped(
                unit_translation.x as int,
                unit_size as int / 2,
                window.width - unit_size as int / 2,
            ),
            p.y == clamped(
                unit_translation.y as int,
                unit_size as int / 2,
                window.height - unit_size as int / 2,
            ),
    {
        let half_unit_size: i64 = unit_size / 2;
        let x_min: i64 = half_unit_size;
        let x_max: i64 = window.width - half_unit_size;
        let y_min: i64 = half_unit_size;
        let y_max: i64 = window.height - half_unit_size;

        let mut new_translation = unit_translation;

        if new_translation.x < x_min {
            new_translation.x = x_min;
        } else if new_translation.x > x_max {
            new_translation.x = x_max;
        }

        if new_translation.y < y_min {
            new_translation.y = y_min;
        } else if new_translation.y > y_max {
            new_translation.y = y_max;
        }

        new_translation
    }

    /// Whether two circular sprites of the given diameters overlap.
    pub fn is_collided(
        first_size: i64,
        first_transform: Vec2,
        second_size: i64,
        second_transform: Vec2,
    ) -> (r: bool)
        requires
            0 <= first_size <= MAX_DIM,
            0 <= second_size <= MAX_DIM,
            first_transform.in_coord_range(),
            second_transform.in_coord_range(),
        ensures
            r == collided(
                first_size as int,
                first_transform,
                second_size as int,
                second_transform,
            ),
    {
        let dx: i128 = (first_transform.x as i128) - (second_transform.x as i128);
        let dy: i128 = (first_transform.y as i128) - (second_transform.y as i128);
        let diameters: i128 = (first_size as i128) + (second_size as i128);
        proof {
            assert(0 <= dx * dx <= 0x1_0000_0000_0000_0000_0000_0000) by (nonlinear_arith)
                requires
                    -8_000_000_000_000 <= dx <= 8_000_000_000_000,
            ;
            assert(0 <= dy * dy <= 0x1_0000_0000_0000_0000_0000_0000) by (nonlinear_arith)
                requires
                    -8_000_000_000_000 <= dy <= 8_000_000_000_000,
            ;
            assert(0 <= diameters * diameters <= 0x1_0000_0000_0000_0000_0000_0000)
                by (nonlinear_arith)
                requires
                    0 <= diameters <= 8_000_000_000_000,
            ;
        }
        4 * (dx * dx + dy * dy) <= diameters * diameters
    }
}

pub struct RandomHelper {}

/// Relies on rand::random: a fresh draw of the requested type; nothing can
/// be promised of its value.
pub assume_specification<T>[ rand::random::<T> ]() -> (r: T)
    where
        rand::distributions::Standard: rand::distributions::Distribution<T>,
;

impl RandomHelper {
    /// A draw strictly below `bound`, by reducing a full-width draw.
    pub fn random_below(bound: u64) -> (r: u64)
        requires
            0 < bound,
        ensures
            r < bound,
    {
        let raw: u64 = rand::random::<u64>();
        raw % bound
    }

    /// A coin flip.
    pub fn random_bool() -> bool {
        rand::random::<bool>()
    }
}

pub struct AudioHelper {}

impl AudioHelper {
    /// One of the two bounce samples, chosen by a coin flip.
    pub fn bounce_sound() -> (r: String)
        ensures
            r@ == "audio/pluck_001.ogg"@ || r@ == "audio/pluck_002.ogg"@,
    {
        if RandomHelper::random_bool() {
            "audio/pluck_001.ogg".to_owned()
        } else {
            "audio/pluck_002.ogg".to_owned()
        }
    }

    pub fn obtain_star_sound() -> (r: String)
        ensures
            r@ == "audio/laserLarge_000.ogg"@,
    {
        "audio/laserLarge_000.ogg".to_owned()
    }

    pub fn game_over_sound() -> (r: String)
        ensures
            r@ == "audio/explosionCrunch_000.ogg"@,
    {
        "audio/explosionCrunch_000.ogg".to_owned()
    }
}

pub struct SpriteHelper {}

impl SpriteHelper {
    pub fn enemy_sprite() -> (r: String)
        ensures
            r@ == "sprites/ball_red_large.png"@,
    {
        "sprites/ball_red_large.png".to_owned()
    }

    pub fn player_sprite() -> (r: String)
        ensures
            r@ == "sprites/ball_blue_large.png"@,
    {
        "sprites/ball_blue_large.png".to_owned()
    }

    pub fn star_sprite() -> (r: String)
        ensures
            r@ == "sprites/star.png"@,
    {
        "sprites/star.png".to_owned()
    }
}

/// The digit character of `d`.
pub open spec fn digit_char(d: int) -> char {
    if d == 0 {
        '0'
    } else if d == 1 {
        '1'
    } else if d == 2 {
        '2'
    } else if d == 3 {
        '3'
    } else if d == 4 {
        '4'
    } else if d == 5 {
        '5'
    } else if d == 6 {
        '6'
    } else if d == 7 {
        '7'
    } else if d == 8 {
        '8'
    } else {
        '9'
    }
}

/// The decimal digits of `n`, most significant first, no leading zeros.
pub open spec fn dec_digits(n: nat) -> Seq<char>
    decreases n,
{
    if n < 10 {
        seq![digit_char(n as int)]
    } else {
        dec_digits(n / 10).push(digit_char((n % 10) as int))
    }
}

fn digit_str(d: u64) -> (r: &'static str)
    requires
        d < 10,
    ensures
        r@ =~= seq![digit_char(d as int)],
{
    proof {
        reveal_strlit("0");
        reveal_strlit("1");
        reveal_strlit("2");
        reveal_strlit("3");
        reveal_strlit("4");
        reveal_strlit("5");
        reveal_strlit("6");
        reveal_strlit("7");
        reveal_strlit("8");
        reveal_strlit("9");
    }
    if d == 0 {
        "0"
    } else if d == 1 {
        "1"
    } else if d == 2 {
        "2"
    } else if d == 3 {
        "3"
    } else if d == 4 {
        "4"
    } else if d == 5 {
        "5"
    } else if d == 6 {
        "6"
    } else if d == 7 {
        "7"
    } else if d == 8 {
        "8"
    } else {
        "9"
    }
}

/// `n` written in decimal.
pub fn decimal_string(n: u64) -> (r: String)
    ensures
        r@ == dec_digits(n as nat),
    decreases n,
{
    if n < 10 {
        let r = digit_str(n).to_owned();
        r
    } else {
        let prefix = decimal_string(n / 10);
        let r = prefix.concat(digit_str(n % 10));
        proof {
            assert(r@ =~= dec_digits((n / 10) as nat).push(digit_char((n % 10) as int)));
        }
        r
    }
}

} // verus!
