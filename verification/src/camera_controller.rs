//! The camera follower: a trivial single-axis position sync that keeps
//! the camera over the followed object.

use vstd::prelude::*;
use crate::physics::Vec3;

verus! {

/// Follows one scene object along the horizontal axis.
#[derive(Clone, Copy, Debug, PartialEq, Eq, Structural, Default)]
pub struct CameraController {
    pub follow_ref: u64,
}

impl CameraController {
    /// The camera's new position for this frame: the followed object's
    /// horizontal position, keeping the camera's own height and depth.
    /// Runs on initialization and once per frame.
    pub fn on_update(&self, camera_position: Vec3, target_x: i64) -> (r: Vec3)
        ensures
            r == (Vec3 { x: target_x, y: camera_position.y, z: camera_position.z }),
    {
        Vec3 { x: target_x, y: camera_position.y, z: camera_position.z }
    }
}

} // verus!
