use battered_battery_bundles::motion::{resolve_motion, ContactFlags, MotionDecision, MoveDirection};
use battered_battery_bundles::physics::{ContactManifold, ContactPair, IntersectionPair, PhysicsSnapshot, Vec3};
use battered_battery_bundles::player_controller::PlayerController;
use battered_battery_bundles::scene::{GameTag, SceneTags};

fn grounded_contact(player_collider: u64) -> ContactPair {
    ContactPair {
        collider1: player_collider,
        collider2: 99,
        manifolds: vec![ContactManifold {
            local_n1: Vec3 { x: 0, y: 1000, z: 0 },
            local_n2: Vec3 { x: 0, y: -1000, z: 0 },
        }],
    }
}

fn actor() -> PlayerController {
    let mut p = PlayerController::default();
    p.accel_force = 1000;
    p.max_speed = 5000;
    p.jump_force = 8000;
    p.direction = MoveDirection::Right;
    p.collider = 10;
    p
}

fn no_effect_flags(ground_contact: bool) -> ContactFlags {
    let mut f = ContactFlags::default();
    f.ground_contact = ground_contact;
    f
}

#[test]
fn at_effective_max_speed_nothing_changes() {
    let flags = no_effect_flags(true);
    let vel = Vec3 { x: 5000, y: 123, z: -4 };
    let r = resolve_motion(MoveDirection::Right, 1000, 5000, &flags, vel);
    assert_eq!(r, MotionDecision { new_velocity: None, force: None });
    let vel_neg = Vec3 { x: -5000, y: 0, z: 0 };
    let r_neg = resolve_motion(MoveDirection::Left, 1000, 5000, &flags, vel_neg);
    assert_eq!(r_neg, MotionDecision { new_velocity: None, force: None });
}

#[test]
fn above_effective_max_speed_clamps_to_facing_direction() {
    let flags = no_effect_flags(true);
    let vel = Vec3 { x: 6000, y: 123, z: -4 };
    let r = resolve_motion(MoveDirection::Right, 1000, 5000, &flags, vel);
    assert_eq!(r.new_velocity, Some(Vec3 { x: -5000, y: 123, z: -4 }));
    assert_eq!(r.force, None);
    let r_left = resolve_motion(MoveDirection::Left, 1000, 5000, &flags, vel);
    assert_eq!(r_left.new_velocity, Some(Vec3 { x: 5000, y: 123, z: -4 }));
}

#[test]
fn below_effective_max_speed_accelerates_only_on_ground() {
    let grounded = no_effect_flags(true);
    let airborne = no_effect_flags(false);
    let vel = Vec3 { x: 0, y: 0, z: 0 };
    let r = resolve_motion(MoveDirection::Right, 1000, 5000, &grounded, vel);
    assert_eq!(r.new_velocity, None);
    assert_eq!(r.force, Some(Vec3 { x: -1000, y: 0, z: 0 }));
    let r_air = resolve_motion(MoveDirection::Right, 1000, 5000, &airborne, vel);
    assert_eq!(r_air, MotionDecision { new_velocity: None, force: None });
}

#[test]
fn negative_effective_max_speed_is_clamped_to_zero() {
    let mut flags = no_effect_flags(true);
    flags.speed_modifier = -9000;
    // effective max would be 5000 - 9000 < 0; it is treated as 0, so a
    // resting actor is exactly at top speed and nothing changes
    let r = resolve_motion(MoveDirection::Right, 1000, 5000, &flags, Vec3 { x: 0, y: 0, z: 0 });
    assert_eq!(r, MotionDecision { new_velocity: None, force: None });
    // a moving actor is above it and is clamped to a standstill
    let r_moving = resolve_motion(MoveDirection::Right, 1000, 5000, &flags, Vec3 { x: 100, y: 7, z: 0 });
    assert_eq!(r_moving.new_velocity, Some(Vec3 { x: 0, y: 7, z: 0 }));
}

#[test]
fn grounded_actor_with_no_modifiers_accelerates_toward_facing() {
    let mut p = actor();
    let tags = SceneTags { entries: vec![] };
    let snapshot = PhysicsSnapshot { contacts: vec![grounded_contact(10)], intersections: vec![] };
    let r = p.on_update(&snapshot, &tags, Vec3 { x: 0, y: 0, z: 0 });
    assert_eq!(p.direction, MoveDirection::Right);
    assert_eq!(r.package_visible, None);
    assert!(!r.flip_model);
    assert_eq!(r.motion.new_velocity, None);
    assert_eq!(r.motion.force, Some(Vec3 { x: -1000, y: 0, z: 0 }));
}

#[test]
fn hazard_overlap_raises_effective_max_and_acceleration() {
    let mut p = actor();
    let tags = SceneTags {
        entries: vec![(30, GameTag::Hazard { accel_modifier: 2000, max_speed_mod: 1000 })],
    };
    let snapshot = PhysicsSnapshot {
        contacts: vec![grounded_contact(10)],
        intersections: vec![
            IntersectionPair { collider1: 10, collider2: 30, has_any_active_contact: true },
        ],
    };
    let (accel, speed) = p.has_terrain_effect(&snapshot, &tags);
    assert_eq!((accel, speed), (2000, 1000));
    // at 6000 the actor is exactly at the raised effective max: no change
    let at_max = p.on_update(&snapshot, &tags, Vec3 { x: 6000, y: 0, z: 0 });
    assert_eq!(at_max.motion, MotionDecision { new_velocity: None, force: None });
    // below it, the accelerating force is base plus modifier
    let r = p.on_update(&snapshot, &tags, Vec3 { x: 0, y: 0, z: 0 });
    assert_eq!(r.motion.force, Some(Vec3 { x: -3000, y: 0, z: 0 }));
}

#[test]
fn reversal_contact_flips_facing_once_and_zeroes_horizontal_velocity() {
    let mut p = actor();
    let tags = SceneTags { entries: vec![(40, GameTag::Reversal)] };
    let snapshot = PhysicsSnapshot {
        contacts: vec![ContactPair { collider1: 10, collider2: 40, manifolds: vec![] }],
        intersections: vec![],
    };
    let r = p.on_update(&snapshot, &tags, Vec3 { x: 3000, y: 11, z: 22 });
    assert_eq!(p.direction, MoveDirection::Left);
    assert!(r.flip_model);
    assert_eq!(r.motion.new_velocity, Some(Vec3 { x: 0, y: 11, z: 22 }));
}

#[test]
fn drop_off_touch_drops_package_and_reverses() {
    let mut p = actor();
    p.carrying_package = true;
    let tags = SceneTags { entries: vec![(50, GameTag::Pickup { is_drop_off: true })] };
    let snapshot = PhysicsSnapshot {
        contacts: vec![],
        intersections: vec![
            IntersectionPair { collider1: 10, collider2: 50, has_any_active_contact: true },
        ],
    };
    let r = p.on_update(&snapshot, &tags, Vec3 { x: 2500, y: 0, z: 0 });
    assert!(!p.carrying_package);
    assert_eq!(r.package_visible, Some(false));
    assert!(r.flip_model);
    assert_eq!(p.direction, MoveDirection::Left);
    assert_eq!(r.motion.new_velocity, Some(Vec3 { x: 0, y: 0, z: 0 }));
}

#[test]
fn pickup_touch_picks_package_up_without_reversal() {
    let mut p = actor();
    let tags = SceneTags { entries: vec![(50, GameTag::Pickup { is_drop_off: false })] };
    let snapshot = PhysicsSnapshot {
        contacts: vec![],
        intersections: vec![
            IntersectionPair { collider1: 10, collider2: 50, has_any_active_contact: true },
        ],
    };
    let r = p.on_update(&snapshot, &tags, Vec3 { x: 0, y: 0, z: 0 });
    assert!(p.carrying_package);
    assert_eq!(r.package_visible, Some(true));
    assert!(!r.flip_model);
    assert_eq!(p.direction, MoveDirection::Right);
}

#[test]
fn jump_happens_only_on_ground() {
    let p = actor();
    let grounded = PhysicsSnapshot { contacts: vec![grounded_contact(10)], intersections: vec![] };
    let airborne = PhysicsSnapshot { contacts: vec![], intersections: vec![] };
    let vel = Vec3 { x: 1500, y: -200, z: 33 };
    let r = p.on_jump_input(true, &grounded, vel);
    assert_eq!(r.new_velocity, Some(Vec3 { x: 1500, y: 8000, z: 0 }));
    assert!(r.restart_sound);
    let r_air = p.on_jump_input(true, &airborne, vel);
    assert_eq!(r_air.new_velocity, None);
    assert!(!r_air.restart_sound);
    let r_idle = p.on_jump_input(false, &grounded, vel);
    assert_eq!(r_idle.new_velocity, None);
    assert!(!r_idle.restart_sound);
}
