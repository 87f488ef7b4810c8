use battered_battery_bundles::physics::{ContactManifold, ContactPair, IntersectionPair, PhysicsSnapshot, Vec3};
use battered_battery_bundles::player_controller::PlayerController;
use battered_battery_bundles::scene::{GameTag, SceneTags};

fn player(collider: u64) -> PlayerController {
    let mut p = PlayerController::default();
    p.collider = collider;
    p
}

fn flat_manifold(ny: i64) -> ContactManifold {
    ContactManifold {
        local_n1: Vec3 { x: 0, y: ny, z: 0 },
        local_n2: Vec3 { x: 0, y: 0, z: 0 },
    }
}

#[test]
fn hazard_modifiers_sum_additively() {
    let p = player(10);
    let tags = SceneTags {
        entries: vec![
            (30, GameTag::Hazard { accel_modifier: 2000, max_speed_mod: 1000 }),
            (31, GameTag::Hazard { accel_modifier: 500, max_speed_mod: -300 }),
        ],
    };
    let snapshot = PhysicsSnapshot {
        contacts: vec![],
        intersections: vec![
            IntersectionPair { collider1: 10, collider2: 30, has_any_active_contact: true },
            IntersectionPair { collider1: 31, collider2: 10, has_any_active_contact: true },
        ],
    };
    let flags = p.process_collisions(&snapshot, &tags);
    assert_eq!(flags.accel_modifier, 2500);
    assert_eq!(flags.speed_modifier, 700);
}

#[test]
fn hazard_modifier_sums_are_order_independent() {
    let p = player(10);
    let tags = SceneTags {
        entries: vec![
            (30, GameTag::Hazard { accel_modifier: 2000, max_speed_mod: 1000 }),
            (31, GameTag::Hazard { accel_modifier: 500, max_speed_mod: -300 }),
        ],
    };
    let a = IntersectionPair { collider1: 10, collider2: 30, has_any_active_contact: true };
    let b = IntersectionPair { collider1: 31, collider2: 10, has_any_active_contact: true };
    let one_order = PhysicsSnapshot { contacts: vec![], intersections: vec![a, b] };
    let other_order = PhysicsSnapshot { contacts: vec![], intersections: vec![b, a] };
    let flags1 = p.process_collisions(&one_order, &tags);
    let flags2 = p.process_collisions(&other_order, &tags);
    assert_eq!(flags1.accel_modifier, flags2.accel_modifier);
    assert_eq!(flags1.speed_modifier, flags2.speed_modifier);
}

#[test]
fn inactive_overlap_contributes_nothing() {
    let p = player(10);
    let tags = SceneTags {
        entries: vec![(30, GameTag::Hazard { accel_modifier: 2000, max_speed_mod: 1000 })],
    };
    let snapshot = PhysicsSnapshot {
        contacts: vec![],
        intersections: vec![
            IntersectionPair { collider1: 10, collider2: 30, has_any_active_contact: false },
        ],
    };
    let flags = p.process_collisions(&snapshot, &tags);
    assert_eq!(flags.accel_modifier, 0);
    assert_eq!(flags.speed_modifier, 0);
    assert!(!flags.ground_contact);
    assert!(!flags.reverse_direction);
}

#[test]
fn untagged_opposing_collider_is_ignored() {
    let p = player(10);
    let tags = SceneTags { entries: vec![] };
    let snapshot = PhysicsSnapshot {
        contacts: vec![],
        intersections: vec![
            IntersectionPair { collider1: 10, collider2: 77, has_any_active_contact: true },
        ],
    };
    let flags = p.process_collisions(&snapshot, &tags);
    assert_eq!(flags.accel_modifier, 0);
    assert!(!flags.package_pickup);
    assert!(!flags.package_drop);
    assert!(!flags.reverse_direction);
}

#[test]
fn ground_contact_threshold_is_exclusive_at_0_7() {
    let p = player(10);
    let above = PhysicsSnapshot {
        contacts: vec![ContactPair { collider1: 10, collider2: 99, manifolds: vec![flat_manifold(710)] }],
        intersections: vec![],
    };
    let below = PhysicsSnapshot {
        contacts: vec![ContactPair { collider1: 10, collider2: 99, manifolds: vec![flat_manifold(690)] }],
        intersections: vec![],
    };
    let at = PhysicsSnapshot {
        contacts: vec![ContactPair { collider1: 10, collider2: 99, manifolds: vec![flat_manifold(700)] }],
        intersections: vec![],
    };
    assert!(p.has_ground_contact(&above));
    assert!(!p.has_ground_contact(&below));
    assert!(!p.has_ground_contact(&at));
}

#[test]
fn ground_contact_reads_both_normals_and_negative_y() {
    let p = player(10);
    let second_normal = PhysicsSnapshot {
        contacts: vec![ContactPair {
            collider1: 99,
            collider2: 10,
            manifolds: vec![ContactManifold {
                local_n1: Vec3 { x: 0, y: 0, z: 0 },
                local_n2: Vec3 { x: 0, y: -1000, z: 0 },
            }],
        }],
        intersections: vec![],
    };
    assert!(p.has_ground_contact(&second_normal));
    let unrelated = PhysicsSnapshot {
        contacts: vec![ContactPair { collider1: 98, collider2: 99, manifolds: vec![flat_manifold(1000)] }],
        intersections: vec![],
    };
    assert!(!p.has_ground_contact(&unrelated));
}

#[test]
fn terrain_effect_sums_only_hazards() {
    let p = player(10);
    let tags = SceneTags {
        entries: vec![
            (30, GameTag::Hazard { accel_modifier: 1500, max_speed_mod: 250 }),
            (50, GameTag::Pickup { is_drop_off: false }),
            (40, GameTag::Reversal),
        ],
    };
    let snapshot = PhysicsSnapshot {
        contacts: vec![],
        intersections: vec![
            IntersectionPair { collider1: 10, collider2: 30, has_any_active_contact: true },
            IntersectionPair { collider1: 10, collider2: 50, has_any_active_contact: true },
            IntersectionPair { collider1: 10, collider2: 40, has_any_active_contact: true },
        ],
    };
    let (accel, speed) = p.has_terrain_effect(&snapshot, &tags);
    assert_eq!(accel, 1500);
    assert_eq!(speed, 250);
}

#[test]
fn last_overlapped_pickup_point_wins() {
    let p = player(10);
    let tags = SceneTags {
        entries: vec![
            (50, GameTag::Pickup { is_drop_off: false }),
            (51, GameTag::Pickup { is_drop_off: true }),
        ],
    };
    let snapshot = PhysicsSnapshot {
        contacts: vec![],
        intersections: vec![
            IntersectionPair { collider1: 10, collider2: 51, has_any_active_contact: true },
            IntersectionPair { collider1: 10, collider2: 50, has_any_active_contact: true },
        ],
    };
    let flags = p.process_collisions(&snapshot, &tags);
    assert!(flags.package_pickup);
    assert!(!flags.package_drop);
    // the drop-off overlap still forces a reversal, whichever point wins
    assert!(flags.reverse_direction);
}
