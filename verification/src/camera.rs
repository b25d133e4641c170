//! The camera, placed at the center of the window.

use vstd::prelude::*;

verus! {

use crate::helpers::{Window, WindowHelper};
use crate::math::Vec2;

/// Registers the camera setup.
pub struct CameraPlugin;

/// Where the camera spawns: the center of the window.
pub fn spawn_camera(window: &Window) -> (position: Vec2)
    requires
        window.wf(),
    ensures
        position.x == window.width as int / 2,
        position.y == window.height as int / 2,
{
    WindowHelper::center(window)
}

} // verus!
