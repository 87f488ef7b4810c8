//! The motion resolver: given the actor's facing, base parameters, the
//! frame's aggregate contact effect and the current velocity, decide the
//! velocity overwrite and the accelerating force for this frame.

use vstd::prelude::*;
use crate::physics::Vec3;

verus! {

use vstd::math::abs;

/// The actor's horizontal facing. In this engine's convention `Left`
/// moves toward positive X and `Right` toward negative X.
#[derive(Clone, Copy, Debug, PartialEq, Eq, Structural)]
pub enum MoveDirection {
    Left,
    Right,
}

impl Default for MoveDirection {
    /// A fresh actor faces `Right`.
    fn default() -> (d: Self)
        ensures
            d == MoveDirection::Right,
    {
        MoveDirection::Right
    }
}

/// The opposite facing.
pub open spec fn spec_flip(d: MoveDirection) -> MoveDirection {
    match d {
        MoveDirection::Left => MoveDirection::Right,
        MoveDirection::Right => MoveDirection::Left,
    }
}

/// The aggregate effect of all of one frame's classified contacts:
/// ground flag, summed terrain modifiers (in thousandths), reversal flag
/// and the pickup/drop-off decision.
#[derive(Clone, Copy, Debug, PartialEq, Eq, Structural)]
pub struct ContactFlags {
    pub ground_contact: bool,
    pub accel_modifier: i64,
    pub speed_modifier: i64,
    pub reverse_direction: bool,
    pub package_pickup: bool,
    pub package_drop: bool,
}

impl ContactFlags {
    /// Modifier sums small enough for the resolver's arithmetic: each is
    /// at most 2^31 contributions of magnitude at most 2^31.
    pub open spec fn bounded(&self) -> bool {
        &&& -0x4000_0000_0000_0000 <= self.accel_modifier <= 0x4000_0000_0000_0000
        &&& -0x4000_0000_0000_0000 <= self.speed_modifier <= 0x4000_0000_0000_0000
    }
}

impl Default for ContactFlags {
    /// The empty aggregate: no matches, all flags false, modifiers zero.
    fn default() -> (f: Self)
        ensures
            f == (ContactFlags {
                ground_contact: false,
                accel_modifier: 0,
                speed_modifier: 0,
                reverse_direction: false,
                package_pickup: false,
                package_drop: false,
            }),
    {
        ContactFlags {
            ground_contact: false,
            accel_modifier: 0,
            speed_modifier: 0,
            reverse_direction: false,
            package_pickup: false,
            package_drop: false,
        }
    }
}

/// What the resolver decided for this frame: a velocity to write, if any,
/// and an accelerating force to apply, if any.
#[derive(Clone, Copy, Debug, PartialEq, Eq, Structural)]
pub struct MotionDecision {
    pub new_velocity: Option<Vec3>,
    pub force: Option<Vec3>,
}

/// The effective top speed: base top speed plus the summed terrain speed
/// modifier, never below zero.
pub open spec fn spec_effective_max(max_speed: int, speed_modifier: int) -> int {
    if max_speed + speed_modifier < 0 {
        0
    } else {
        max_speed + speed_modifier
    }
}

/// A horizontal magnitude signed by the facing: `Left` is positive X,
/// `Right` negative X.
pub open spec fn spec_signed_x(d: MoveDirection, magnitude: int) -> int {
    match d {
        MoveDirection::Left => magnitude,
        MoveDirection::Right => -magnitude,
    }
}

/// `v` with its horizontal component replaced.
pub open spec fn spec_with_x(v: Vec3, x: int) -> Vec3 {
    Vec3 { x: x as i64, y: v.y, z: v.z }
}

/// A pure horizontal force vector.
pub open spec fn spec_force_x(x: int) -> Vec3 {
    Vec3 { x: x as i64, y: 0, z: 0 }
}

/// The whole resolution rule. `direction` is the facing after any
/// reversal this frame. On reversal the horizontal velocity is zeroed
/// first (the hard stop); then, comparing the resulting horizontal speed
/// with the effective top speed: at it, nothing changes; above it, the
/// velocity is clamped to the effective top speed in the facing
/// direction; below it, an accelerating force of the summed magnitude is
/// applied while on the ground, and never while airborne.
pub open spec fn spec_resolve(
    direction: MoveDirection,
    accel_force: int,
    max_speed: int,
    flags: ContactFlags,
    vel: Vec3,
) -> MotionDecision {
    let vx = if flags.reverse_direction {
        0
    } else {
        vel.x as int
    };
    let stopped = if flags.reverse_direction {
        Some(spec_with_x(vel, 0))
    } else {
        None
    };
    let eff = spec_effective_max(max_speed, flags.speed_modifier as int);
    if abs(vx) == eff {
        MotionDecision { new_velocity: stopped, force: None }
    } else if abs(vx) > eff {
        MotionDecision {
            new_velocity: Some(spec_with_x(vel, spec_signed_x(direction, eff))),
            force: None,
        }
    } else {
        MotionDecision {
            new_velocity: stopped,
            force: if flags.ground_contact {
                Some(spec_force_x(spec_signed_x(direction, accel_force + flags.accel_modifier)))
            } else {
                None
            },
        }
    }
}

/// Resolves one frame of horizontal motion. `direction` is the facing
/// after any reversal this frame was applied.
pub fn resolve_motion(
    direction: MoveDirection,
    accel_force: i32,
    max_speed: i32,
    flags: &ContactFlags,
    vel: Vec3,
) -> (r: MotionDecision)
    requires
        flags.bounded(),
    ensures
        r == spec_resolve(direction, accel_force as int, max_speed as int, *flags, vel),
{
    let raw_max: i64 = (max_speed as i64) + flags.speed_modifier;
    let eff: i64 = if raw_max < 0 {
        0
    } else {
        raw_max
    };
    let vx: i64 = if flags.reverse_direction {
        0
    } else {
        vel.x
    };
    let stopped: Option<Vec3> = if flags.reverse_direction {
        Some(Vec3 { x: 0, y: vel.y, z: vel.z })
    } else {
        None
    };
    if vx == eff || vx == -eff {
        MotionDecision { new_velocity: stopped, force: None }
    } else if vx > eff || vx < -eff {
        let clamped: i64 = match direction {
            MoveDirection::Left => eff,
            MoveDirection::Right => -eff,
        };
        MotionDecision {
            new_velocity: Some(Vec3 { x: clamped, y: vel.y, z: vel.z }),
            force: None,
        }
    } else {
        let force: Option<Vec3> = if flags.ground_contact {
            let magnitude: i64 = (accel_force as i64) + flags.accel_modifier;
            let signed: i64 = match direction {
                MoveDirection::Left => magnitude,
                MoveDirection::Right => -magnitude,
            };
            Some(Vec3 { x: signed, y: 0, z: 0 })
        } else {
            None
        };
        MotionDecision { new_velocity: stopped, force }
    }
}

/// Law: at exactly the effective top speed the resolver changes nothing,
/// and above it the velocity is clamped to exactly the effective top
/// speed in the facing direction, leaving the other axes alone.
pub proof fn lemma_clamp_idempotent(
    direction: MoveDirection,
    accel_force: int,
    max_speed: int,
    flags: ContactFlags,
    vel: Vec3,
)
    requires
        !flags.reverse_direction,
    ensures
        abs(vel.x as int) == spec_effective_max(max_speed, flags.speed_modifier as int)
            ==> spec_resolve(direction, accel_force, max_speed, flags, vel) == (MotionDecision {
            new_velocity: None,
            force: None,
        }),
        abs(vel.x as int) > spec_effective_max(max_speed, flags.speed_modifier as int)
            ==> spec_resolve(direction, accel_force, max_speed, flags, vel).new_velocity == Some(
            spec_with_x(
                vel,
                spec_signed_x(
                    direction,
                    spec_effective_max(max_speed, flags.speed_modifier as int),
                ),
            ),
        ),
{
}

/// Law: a frame with the reversal flag set always ends with the
/// horizontal velocity zeroed, whatever the current speed; the reversal's
/// hard stop is never overridden by the clamp.
pub proof fn lemma_reversal_zeroes_horizontal(
    direction: MoveDirection,
    accel_force: int,
    max_speed: int,
    flags: ContactFlags,
    vel: Vec3,
)
    requires
        flags.reverse_direction,
    ensures
        spec_resolve(direction, accel_force, max_speed, flags, vel).new_velocity == Some(
            spec_with_x(vel, 0),
        ),
{
}

} // verus!
