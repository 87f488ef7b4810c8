//! The player actor: persistent motion state (facing, base parameters,
//! health, carried package) and the once-per-frame update that classifies
//! the frame's contacts, accumulates their effects and resolves motion.

use vstd::prelude::*;
use crate::contacts::accel_sum;
use crate::contacts::accumulate;
use crate::contacts::classify;
use crate::contacts::lemma_classified_ground;
use crate::contacts::lemma_classified_reversal;
use crate::contacts::lemma_overlapping_len;
use crate::contacts::spec_any_dropoff;
use crate::contacts::spec_last_pickup;
use crate::contacts::spec_overlapping;
use crate::contacts::spec_reversal_contact;
use crate::contacts::speed_sum;
use crate::motion::MotionDecision;
use crate::motion::resolve_motion;
use crate::motion::spec_flip;
use crate::motion::spec_resolve;
use crate::physics::PhysicsSnapshot;
use crate::physics::Vec3;
use crate::physics::contact_is_ground;
use crate::physics::manifolds_have_ground;
use crate::physics::pair_involves;
use crate::physics::spec_has_ground_contact;
use crate::scene::SceneTags;
use crate::terrain_effect::DamageMessage;

pub use crate::contacts::MAX_TRACKED_OVERLAPS;
pub use crate::motion::ContactFlags;
pub use crate::motion::MoveDirection;

verus! {

/// A model yaw of zero is flipped to this angle, in thousandths of a
/// degree, and any other yaw back to zero.
pub const HALF_TURN: i64 = 180000;

/// The player's motion state and scene references. Scalar parameters are
/// in thousandths of a unit; the handle fields identify the actor's own
/// collider and the scene objects its actions address.
#[derive(Clone, Copy, Debug, PartialEq, Eq, Structural)]
pub struct PlayerController {
    pub accel_force: i32,
    pub max_speed: i32,
    pub jump_force: i32,
    pub direction: MoveDirection,
    pub player_health: u8,
    pub package_health: u8,
    pub carrying_package: bool,
    pub collider: u64,
    pub package: u64,
    pub jump_sound: u64,
    pub player_model: u64,
}

impl Default for PlayerController {
    /// A fresh actor: no motion parameters, facing `Right`, full zero
    /// health counters, carrying nothing.
    fn default() -> (p: Self)
        ensures
            p == (PlayerController {
                accel_force: 0,
                max_speed: 0,
                jump_force: 0,
                direction: MoveDirection::Right,
                player_health: 0,
                package_health: 0,
                carrying_package: false,
                collider: 0,
                package: 0,
                jump_sound: 0,
                player_model: 0,
            }),
    {
        PlayerController {
            accel_force: 0,
            max_speed: 0,
            jump_force: 0,
            direction: MoveDirection::Right,
            player_health: 0,
            package_health: 0,
            carrying_package: false,
            collider: 0,
            package: 0,
            jump_sound: 0,
            player_model: 0,
        }
    }
}

/// The aggregate effect of one frame's snapshot for collider `h`: what
/// `process_collisions` returns, stated straight off the snapshot.
pub open spec fn spec_frame_flags(
    snapshot: PhysicsSnapshot,
    h: u64,
    tags: SceneTags,
) -> ContactFlags {
    let ov = spec_overlapping(snapshot.intersections@, h, tags.entries@);
    ContactFlags {
        ground_contact: spec_has_ground_contact(snapshot.contacts@, h),
        accel_modifier: accel_sum(ov) as i64,
        speed_modifier: speed_sum(ov) as i64,
        reverse_direction: spec_reversal_contact(snapshot.contacts@, h, tags.entries@)
            || spec_any_dropoff(ov),
        package_pickup: spec_last_pickup(ov) == Some(false),
        package_drop: spec_last_pickup(ov) == Some(true),
    }
}

/// What one frame's update asks of the host: a visibility change for the
/// carried-package visual, a visual flip of the player model, and the
/// resolver's velocity/force decision.
#[derive(Clone, Copy, Debug, PartialEq, Eq, Structural)]
pub struct FrameActions {
    pub package_visible: Option<bool>,
    pub flip_model: bool,
    pub motion: MotionDecision,
}

/// What a jump-input edge asks of the host: the velocity to write, if the
/// jump happens, and whether to restart the jump sound cue.
#[derive(Clone, Copy, Debug, PartialEq, Eq, Structural)]
pub struct JumpOutcome {
    pub new_velocity: Option<Vec3>,
    pub restart_sound: bool,
}

impl PlayerController {
    /// The new yaw for the player model's visual flip, in thousandths of
    /// a degree: a model at zero turns half a turn, any other back to
    /// zero.
    pub fn rotate_player(&self, current_angle: i64) -> (r: i64)
        ensures
            r == (if current_angle == 0 {
                HALF_TURN as int
            } else {
                0
            }),
    {
        if current_angle == 0 {
            HALF_TURN
        } else {
            0
        }
    }

    /// Classifies this frame's contacts of the actor's collider and folds
    /// them into the aggregate effect. Read-only; runs once per frame.
    pub fn process_collisions(&self, snapshot: &PhysicsSnapshot, tags: &SceneTags) -> (flags:
        ContactFlags)
        requires
            snapshot.intersections@.len() <= MAX_TRACKED_OVERLAPS,
        ensures
            flags == spec_frame_flags(*snapshot, self.collider, *tags),
            flags.accel_modifier as int == accel_sum(
                spec_overlapping(snapshot.intersections@, self.collider, tags.entries@),
            ),
            flags.speed_modifier as int == speed_sum(
                spec_overlapping(snapshot.intersections@, self.collider, tags.entries@),
            ),
            flags.bounded(),
    {
        let set = classify(snapshot, self.collider, tags);
        proof {
            lemma_overlapping_len(snapshot.intersections@, self.collider, tags.entries@);
            lemma_classified_ground(snapshot.contacts@, self.collider, tags.entries@);
            lemma_classified_reversal(snapshot.contacts@, self.collider, tags.entries@);
        }
        accumulate(&set)
    }

    /// Whether the actor presently touches ground: some persistent
    /// contact of its collider has a floor-like manifold.
    pub fn has_ground_contact(&self, snapshot: &PhysicsSnapshot) -> (r: bool)
        ensures
            r == spec_has_ground_contact(snapshot.contacts@, self.collider),
    {
        let n = snapshot.contacts.len();
        let mut i: usize = 0;
        while i < n
            invariant
                n == snapshot.contacts@.len(),
                0 <= i <= n,
                forall|k: int|
                    0 <= k < i ==> !(pair_involves(
                        (#[trigger] snapshot.contacts@[k]).collider1,
                        snapshot.contacts@[k].collider2,
                        self.collider,
                    ) && contact_is_ground(snapshot.contacts@[k])),
            decreases n - i,
        {
            let c = &snapshot.contacts[i];
            if c.collider1 == self.collider || c.collider2 == self.collider {
                if manifolds_have_ground(&c.manifolds) {
                    return true;
                }
            }
            i = i + 1;
        }
        false
    }

    /// The summed terrain modifiers (acceleration, top speed) of the
    /// actor's active overlaps this frame, in thousandths.
    pub fn has_terrain_effect(&self, snapshot: &PhysicsSnapshot, tags: &SceneTags) -> (r: (
        i64,
        i64,
    ))
        requires
            snapshot.intersections@.len() <= MAX_TRACKED_OVERLAPS,
        ensures
            r.0 as int == accel_sum(
                spec_overlapping(snapshot.intersections@, self.collider, tags.entries@),
            ),
            r.1 as int == speed_sum(
                spec_overlapping(snapshot.intersections@, self.collider, tags.entries@),
            ),
    {
        let flags = self.process_collisions(snapshot, tags);
        (flags.accel_modifier, flags.speed_modifier)
    }

    /// Reacts to one jump-input down-transition: while the actor touches
    /// ground, the vertical velocity is set to the jump impulse (the
    /// horizontal component kept, the depth component zeroed) and the
    /// jump sound cue restarts; airborne or without the edge, nothing
    /// happens.
    pub fn on_jump_input(&self, pressed: bool, snapshot: &PhysicsSnapshot, vel: Vec3) -> (r:
        JumpOutcome)
        ensures
            ({
                let jump = pressed && spec_has_ground_contact(snapshot.contacts@, self.collider);
                &&& r.restart_sound == jump
                &&& r.new_velocity == (if jump {
                    Some(Vec3 { x: vel.x, y: self.jump_force as i64, z: 0 })
                } else {
                    None::<Vec3>
                })
            }),
    {
        if pressed && self.has_ground_contact(snapshot) {
            JumpOutcome {
                new_velocity: Some(Vec3 { x: vel.x, y: self.jump_force as i64, z: 0 }),
                restart_sound: true,
            }
        } else {
            JumpOutcome { new_velocity: None, restart_sound: false }
        }
    }

    /// One frame of the actor's update, given the physics snapshot, the
    /// tag mapping and the current velocity. Aggregates the frame's
    /// contact effects, applies pickup/drop-off to the carried-package
    /// state, applies any reversal to the facing, and resolves motion
    /// with the facing after reversal.
    pub fn on_update(&mut self, snapshot: &PhysicsSnapshot, tags: &SceneTags, vel: Vec3) -> (r:
        FrameActions)
        requires
            snapshot.intersections@.len() <= MAX_TRACKED_OVERLAPS,
        ensures
            ({
                let flags = spec_frame_flags(*snapshot, old(self).collider, *tags);
                let dir = if flags.reverse_direction {
                    spec_flip(old(self).direction)
                } else {
                    old(self).direction
                };
                &&& final(self).direction == dir
                &&& final(self).carrying_package == (if flags.package_pickup {
                    true
                } else if flags.package_drop {
                    false
                } else {
                    old(self).carrying_package
                })
                &&& r.package_visible == (if flags.package_pickup {
                    Some(true)
                } else if flags.package_drop {
                    Some(false)
                } else {
                    None::<bool>
                })
                &&& r.flip_model == flags.reverse_direction
                &&& r.motion == spec_resolve(
                    dir,
                    old(self).accel_force as int,
                    old(self).max_speed as int,
                    flags,
                    vel,
                )
                &&& final(self).accel_force == old(self).accel_force
                &&& final(self).max_speed == old(self).max_speed
                &&& final(self).jump_force == old(self).jump_force
                &&& final(self).player_health == old(self).player_health
                &&& final(self).package_health == old(self).package_health
                &&& final(self).collider == old(self).collider
                &&& final(self).package == old(self).package
                &&& final(self).jump_sound == old(self).jump_sound
                &&& final(self).player_model == old(self).player_model
            }),
    {
        let flags = self.process_collisions(snapshot, tags);

        let package_visible: Option<bool> = if flags.package_pickup {
            self.carrying_package = true;
            Some(true)
        } else if flags.package_drop {
            self.carrying_package = false;
            Some(false)
        } else {
            None
        };

        if flags.reverse_direction {
            self.direction = match self.direction {
                MoveDirection::Left => MoveDirection::Right,
                MoveDirection::Right => MoveDirection::Left,
            };
        }

        let motion = resolve_motion(self.direction, self.accel_force, self.max_speed, &flags, vel);

        FrameActions { package_visible, flip_model: flags.reverse_direction, motion }
    }

    /// Applies one damage message to the health counters; each saturates
    /// at zero.
    pub fn apply_damage(&mut self, msg: &DamageMessage)
        ensures
            final(self).player_health == (if old(self).player_health >= msg.player_damage {
                old(self).player_health - msg.player_damage
            } else {
                0
            }),
            final(self).package_health == (if old(self).package_health >= msg.package_damage {
                old(self).package_health - msg.package_damage
            } else {
                0
            }),
            final(self).accel_force == old(self).accel_force,
            final(self).max_speed == old(self).max_speed,
            final(self).jump_force == old(self).jump_force,
            final(self).direction == old(self).direction,
            final(self).carrying_package == old(self).carrying_package,
            final(self).collider == old(self).collider,
            final(self).package == old(self).package,
            final(self).jump_sound == old(self).jump_sound,
            final(self).player_model == old(self).player_model,
    {
        self.player_health = if self.player_health >= msg.player_damage {
            self.player_health - msg.player_damage
        } else {
            0
        };
        self.package_health = if self.package_health >= msg.package_damage {
            self.package_health - msg.package_damage
        } else {
            0
        };
    }
}

} // verus!
