//! Plain-value model of the physics collaborator's per-frame snapshot:
//! persistent contacts (solid touching, with manifold surface normals)
//! and overlap/intersection events (sensor-style, with an activity flag).

use vstd::prelude::*;

verus! {

use vstd::math::abs;

/// Threshold on a contact normal's vertical component, in thousandths:
/// a manifold counts as ground when the magnitude strictly exceeds it
/// (the surface is closer to horizontal than a roughly 45-degree slope).
pub const GROUND_NORMAL_MIN: i64 = 700;

/// A vector in thousandths of a unit per axis.
#[derive(Clone, Copy, Debug, PartialEq, Eq, Structural)]
pub struct Vec3 {
    pub x: i64,
    pub y: i64,
    pub z: i64,
}

/// One contact manifold of a persistent contact, reduced to the two
/// surface normals the gameplay logic reads.
#[derive(Clone, Copy, Debug, PartialEq, Eq, Structural)]
pub struct ContactManifold {
    pub local_n1: Vec3,
    pub local_n2: Vec3,
}

/// A persistent (solid) contact between two colliders.
#[derive(Clone, Debug)]
pub struct ContactPair {
    pub collider1: u64,
    pub collider2: u64,
    pub manifolds: Vec<ContactManifold>,
}

/// A sensor-style overlap between two colliders.
#[derive(Clone, Copy, Debug, PartialEq, Eq, Structural)]
pub struct IntersectionPair {
    pub collider1: u64,
    pub collider2: u64,
    pub has_any_active_contact: bool,
}

/// The physics collaborator's snapshot for one frame. Scripts only read
/// it; it reflects no frame but the current one.
#[derive(Clone, Debug)]
pub struct PhysicsSnapshot {
    pub contacts: Vec<ContactPair>,
    pub intersections: Vec<IntersectionPair>,
}

/// Whether a contact or overlap between `c1` and `c2` involves collider `h`.
pub open spec fn pair_involves(c1: u64, c2: u64, h: u64) -> bool {
    c1 == h || c2 == h
}

/// The collider opposing `h` in a pair; when `c1` is `h` it is `c2`,
/// otherwise `c1`.
pub open spec fn opposing_collider(c1: u64, c2: u64, h: u64) -> u64 {
    if c1 == h {
        c2
    } else {
        c1
    }
}

/// Whether one manifold reports a floor-like surface: either side's
/// normal has a vertical component of magnitude above the threshold.
pub open spec fn manifold_is_ground(m: ContactManifold) -> bool {
    abs(m.local_n1.y as int) > GROUND_NORMAL_MIN || abs(m.local_n2.y as int) > GROUND_NORMAL_MIN
}

/// Whether any manifold of a contact reports a floor-like surface.
pub open spec fn contact_is_ground(c: ContactPair) -> bool {
    exists|i: int| 0 <= i < c.manifolds@.len() && manifold_is_ground(#[trigger] c.manifolds@[i])
}

/// Whether collider `h` presently touches ground: some persistent contact
/// involving `h` has a floor-like manifold.
pub open spec fn spec_has_ground_contact(contacts: Seq<ContactPair>, h: u64) -> bool {
    exists|i: int|
        0 <= i < contacts.len() && pair_involves(
            (#[trigger] contacts[i]).collider1,
            contacts[i].collider2,
            h,
        ) && contact_is_ground(contacts[i])
}

/// Whether any manifold in the list is floor-like; one inner step of
/// ground detection.
pub fn manifolds_have_ground(manifolds: &Vec<ContactManifold>) -> (r: bool)
    ensures
        r == exists|i: int|
            0 <= i < manifolds@.len() && manifold_is_ground(#[trigger] manifolds@[i]),
{
    let n = manifolds.len();
    let mut i: usize = 0;
    while i < n
        invariant
            n == manifolds@.len(),
            0 <= i <= n,
            forall|j: int| 0 <= j < i ==> !manifold_is_ground(#[trigger] manifolds@[j]),
        decreases n - i,
    {
        let m = manifolds[i];
        if m.local_n1.y > GROUND_NORMAL_MIN || m.local_n1.y < -GROUND_NORMAL_MIN
            || m.local_n2.y > GROUND_NORMAL_MIN || m.local_n2.y < -GROUND_NORMAL_MIN {
            return true;
        }
        i = i + 1;
    }
    false
}

} // verus!
