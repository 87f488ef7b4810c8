//! Per-frame gameplay logic for a small 2D platformer: classification of
//! physics contacts by gameplay tag, accumulation of simultaneous terrain
//! effects, motion resolution (clamp, accelerate, jump, reverse), hazard
//! damage episodes, and the package pickup/drop-off mechanic.
//!
//! The host engine owns rendering, input devices, the scene graph and the
//! physics simulation; each frame it hands the library a plain-value
//! snapshot of the current contacts and overlaps, and applies the actions
//! the library decides. Scalar quantities (velocities, forces, surface
//! normals, angles) are fixed-point values counted in thousandths of a
//! unit, so every rule can be stated and proved exactly.

use vstd::prelude::*;

pub mod camera_controller;
pub mod contacts;
pub mod motion;
pub mod package_pickup_point;
pub mod physics;
pub mod player_controller;
pub mod reverse_direction;
pub mod scene;
pub mod terrain_effect;

verus! {

/// Marker under which the gameplay scripts are registered with the host
/// engine; the registration call itself is host-side glue.
pub struct GameConstructor;

} // verus!
