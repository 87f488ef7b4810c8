//! Package pickup points. Through its tag a point marks the actor's
//! pickup or drop-off (the motion resolver consumes that); the physically
//! instanced collectible variant modeled here additionally disables
//! itself and swaps its visual material permanently once touched.

use vstd::prelude::*;
use crate::physics::PhysicsSnapshot;
use crate::scene::ActorBindings;
use crate::scene::first_player_contact;
use crate::scene::spec_first_player_contact;

verus! {

/// A pickup point: a drop-off or a pickup (immutable per instance), the
/// mesh whose material is swapped on deactivation, and whether the point
/// is still active.
#[derive(Clone, Copy, Debug, PartialEq, Eq, Structural)]
pub struct PackagePickupPoint {
    pub is_drop_off: bool,
    pub point_mesh: u64,
    pub active: bool,
}

impl PackagePickupPoint {
    /// A fresh, still active point.
    pub fn new(is_drop_off: bool, point_mesh: u64) -> (p: Self)
        ensures
            p == (PackagePickupPoint { is_drop_off, point_mesh, active: true }),
    {
        PackagePickupPoint { is_drop_off, point_mesh, active: true }
    }

    /// Whether an actor overlaps this point's collider `handle` this
    /// frame: some active overlap's opposing collider is bound to an
    /// actor. Read-only.
    pub fn has_player_contact(
        &self,
        handle: u64,
        snapshot: &PhysicsSnapshot,
        bindings: &ActorBindings,
    ) -> (r: bool)
        ensures
            r == (spec_first_player_contact(snapshot.intersections@, handle, bindings.entries@)
                is Some),
    {
        first_player_contact(&snapshot.intersections, handle, bindings).is_some()
    }

    /// One frame of the one-shot collectible variant: the first touch
    /// deactivates the point for good; the returned flag asks the host to
    /// disable the point's scene object and swap the mesh material.
    pub fn on_update(&mut self, has_contact: bool) -> (deactivate: bool)
        ensures
            deactivate == (has_contact && old(self).active),
            final(self).active == (old(self).active && !has_contact),
            final(self).is_drop_off == old(self).is_drop_off,
            final(self).point_mesh == old(self).point_mesh,
    {
        if has_contact && self.active {
            self.active = false;
            true
        } else {
            if has_contact {
                self.active = false;
            }
            false
        }
    }
}

impl Default for PackagePickupPoint {
    /// A fresh pickup (not drop-off) point.
    fn default() -> (p: Self)
        ensures
            p == (PackagePickupPoint { is_drop_off: false, point_mesh: 0, active: true }),
    {
        PackagePickupPoint::new(false, 0)
    }
}

} // verus!
