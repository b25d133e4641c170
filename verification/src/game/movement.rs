//! Confinement of sized, confined entities — in this game, the player.

use vstd::prelude::*;

verus! {

use crate::game::player::Player;
use crate::game::Size;
use crate::helpers::{MovementHelper, Window};
use crate::math::{clamped, MAX_DIM};

/// Registers the confinement system.
pub struct MovementPlugin;

/// Forces a confined entity back inside the window, keeping half its size
/// from every edge.
pub fn confine_movement(player: &mut Player, size: &Size, window: &Window)
    requires
        window.wf(),
        0 <= size.value <= MAX_DIM,
    ensures
        final(player).position.x == clamped(
            old(player).position.x as int,
            size.value as int / 2,
            window.width - size.value as int / 2,
        ),
        final(player).position.y == clamped(
            old(player).position.y as int,
            size.value as int / 2,
            window.height - size.value as int / 2,
        ),
{
    player.position = MovementHelper::confine(window, player.position, size.value);
}

} // verus!
