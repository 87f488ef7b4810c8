//! Plain-value model of what the scene-graph collaborator resolves for the
//! gameplay logic: the gameplay tag attached to a collider's owning object,
//! and the back-reference from a collider to the actor that owns it.

use vstd::prelude::*;
use crate::physics::IntersectionPair;
use crate::physics::opposing_collider;
use crate::physics::pair_involves;

verus! {

/// The closed set of gameplay tags a scene object can carry. A terrain
/// hazard contributes its two modifiers (in thousandths) to the frame's
/// aggregate; a pickup point is either a pickup or a drop-off; a reversal
/// zone flips the actor's facing on touch.
#[derive(Clone, Copy, Debug, PartialEq, Eq, Structural)]
pub enum GameTag {
    Hazard { accel_modifier: i32, max_speed_mod: i32 },
    Pickup { is_drop_off: bool },
    Reversal,
}

/// First-match lookup in an association list, from the front.
pub open spec fn spec_assoc<V>(entries: Seq<(u64, V)>, key: u64) -> Option<V>
    decreases entries.len(),
{
    if entries.len() == 0 {
        None
    } else if entries[0].0 == key {
        Some(entries[0].1)
    } else {
        spec_assoc(entries.drop_first(), key)
    }
}

/// The mapping from a collider's identity to the gameplay tag of the
/// script attached to its owning object, resolved once per frame.
#[derive(Clone, Debug)]
pub struct SceneTags {
    pub entries: Vec<(u64, GameTag)>,
}

/// The back-reference from a collider's identity to the actor that owns
/// it, recorded at attach time in place of a per-contact graph walk.
#[derive(Clone, Debug)]
pub struct ActorBindings {
    pub entries: Vec<(u64, u64)>,
}

fn assoc_lookup<V: Copy>(entries: &Vec<(u64, V)>, key: u64) -> (r: Option<V>)
    ensures
        r == spec_assoc(entries@, key),
{
    let n = entries.len();
    let mut i: usize = 0;
    proof {
        assert(entries@.skip(0) =~= entries@);
    }
    while i < n
        invariant
            n == entries@.len(),
            0 <= i <= n,
            spec_assoc(entries@, key) == spec_assoc(entries@.skip(i as int), key),
        decreases n - i,
    {
        proof {
            assert(entries@.skip(i as int).drop_first() =~= entries@.skip(i as int + 1));
        }
        let e = entries[i];
        if e.0 == key {
            assert(entries@.skip(i as int)[0] == entries@[i as int]);
            return Some(e.1);
        }
        i = i + 1;
    }
    None
}

impl SceneTags {
    /// The tag of the script attached to the object owning collider `id`,
    /// if any; an object with no recognized tag yields `None`.
    pub fn tag_of(&self, id: u64) -> (r: Option<GameTag>)
        ensures
            r == spec_assoc(self.entries@, id),
    {
        assoc_lookup(&self.entries, id)
    }
}

impl ActorBindings {
    /// The actor owning collider `id`, if the collider belongs to one.
    pub fn actor_of(&self, id: u64) -> (r: Option<u64>)
        ensures
            r == spec_assoc(self.entries@, id),
    {
        assoc_lookup(&self.entries, id)
    }
}

/// The actor found by the first active overlap of collider `h` whose
/// opposing collider is bound to an actor, scanning in snapshot order.
pub open spec fn spec_first_player_contact(
    intersections: Seq<IntersectionPair>,
    h: u64,
    bindings: Seq<(u64, u64)>,
) -> Option<u64>
    decreases intersections.len(),
{
    if intersections.len() == 0 {
        None
    } else {
        let p = intersections[0];
        if p.has_any_active_contact && pair_involves(p.collider1, p.collider2, h) && spec_assoc(
            bindings,
            opposing_collider(p.collider1, p.collider2, h),
        ) is Some {
            spec_assoc(bindings, opposing_collider(p.collider1, p.collider2, h))
        } else {
            spec_first_player_contact(intersections.drop_first(), h, bindings)
        }
    }
}

/// Scans the frame's overlaps for the first active one that connects
/// collider `h` to a collider owned by an actor, and returns that actor.
pub fn first_player_contact(
    intersections: &Vec<IntersectionPair>,
    h: u64,
    bindings: &ActorBindings,
) -> (r: Option<u64>)
    ensures
        r == spec_first_player_contact(intersections@, h, bindings.entries@),
{
    let n = intersections.len();
    let mut i: usize = 0;
    proof {
        assert(intersections@.skip(0) =~= intersections@);
    }
    while i < n
        invariant
            n == intersections@.len(),
            0 <= i <= n,
            spec_first_player_contact(intersections@, h, bindings.entries@)
                == spec_first_player_contact(intersections@.skip(i as int), h, bindings.entries@),
        decreases n - i,
    {
        proof {
            assert(intersections@.skip(i as int).drop_first() =~= intersections@.skip(i as int + 1));
            assert(intersections@.skip(i as int)[0] == intersections@[i as int]);
        }
        let p = intersections[i];
        if p.has_any_active_contact && (p.collider1 == h || p.collider2 == h) {
            let opposing = if p.collider1 == h {
                p.collider2
            } else {
                p.collider1
            };
            let found = bindings.actor_of(opposing);
            if found.is_some() {
                return found;
            }
        }
        i = i + 1;
    }
    None
}

} // verus!
