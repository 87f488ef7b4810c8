//! Terrain hazard zones. A zone's modifiers feed the effect accumulator
//! through its tag; the zone itself damages an overlapping actor at most
//! once per continuous overlap episode and re-arms when contact ends.

use vstd::prelude::*;
use crate::physics::PhysicsSnapshot;
use crate::scene::ActorBindings;
use crate::scene::first_player_contact;
use crate::scene::spec_first_player_contact;

verus! {

/// One damage event, published to the global event channel.
#[derive(Clone, Copy, Debug, PartialEq, Eq, Structural)]
pub struct DamageMessage {
    pub player_damage: u8,
    pub package_damage: u8,
}

/// A terrain hazard zone: descriptive modifiers (in thousandths) and
/// damage values, plus the actors already damaged during the present
/// overlap episode.
#[derive(Clone, Debug)]
pub struct TerrainEffect {
    pub accel_modifier: i32,
    pub max_speed_mod: i32,
    pub player_damage: u8,
    pub package_damage: u8,
    pub hit: Vec<u64>,
}

/// Whether one frame of overlap state emits a damage message: an actor is
/// inside and was not yet damaged this episode.
pub open spec fn spec_zone_emits(hit: Seq<u64>, contact: Option<u64>) -> bool {
    match contact {
        Some(a) => !hit.contains(a),
        None => false,
    }
}

/// How one frame changes the set of already-damaged actors: an actor
/// inside is remembered; the frame contact ends, the episode memory is
/// cleared entirely, permitting re-damage on a later separate episode.
pub open spec fn spec_zone_step(hit: Seq<u64>, contact: Option<u64>) -> Seq<u64> {
    match contact {
        Some(a) => if hit.contains(a) {
            hit
        } else {
            hit.push(a)
        },
        None => Seq::empty(),
    }
}

fn vec_contains_u64(v: &Vec<u64>, a: u64) -> (b: bool)
    ensures
        b == v@.contains(a),
{
    let n = v.len();
    let mut i: usize = 0;
    while i < n
        invariant
            n == v@.len(),
            0 <= i <= n,
            forall|k: int| 0 <= k < i ==> v@[k] != a,
        decreases n - i,
    {
        if v[i] == a {
            return true;
        }
        i = i + 1;
    }
    false
}

impl TerrainEffect {
    /// The actors already damaged during the present overlap episode.
    pub open spec fn already_hit(&self) -> Seq<u64> {
        self.hit@
    }

    /// A fresh zone with the given modifiers and damage values and no
    /// running overlap episode.
    pub fn new(
        accel_modifier: i32,
        max_speed_mod: i32,
        player_damage: u8,
        package_damage: u8,
    ) -> (z: Self)
        ensures
            z.accel_modifier == accel_modifier,
            z.max_speed_mod == max_speed_mod,
            z.player_damage == player_damage,
            z.package_damage == package_damage,
            z.already_hit() == Seq::<u64>::empty(),
    {
        TerrainEffect {
            accel_modifier,
            max_speed_mod,
            player_damage,
            package_damage,
            hit: Vec::new(),
        }
    }

    /// The actor overlapping this zone's collider `handle` this frame, if
    /// any: the first active overlap whose opposing collider is bound to
    /// an actor. Read-only.
    pub fn has_player_contact(
        &self,
        handle: u64,
        snapshot: &PhysicsSnapshot,
        bindings: &ActorBindings,
    ) -> (r: Option<u64>)
        ensures
            r == spec_first_player_contact(snapshot.intersections@, handle, bindings.entries@),
    {
        first_player_contact(&snapshot.intersections, handle, bindings)
    }

    /// One frame of the zone's damage bookkeeping, given the overlapping
    /// actor (if any): emits one damage message on the first frame of an
    /// overlap episode and none while the actor stays inside; a frame
    /// without overlap ends the episode.
    pub fn on_update(&mut self, player: Option<u64>) -> (msg: Option<DamageMessage>)
        ensures
            final(self).already_hit() == spec_zone_step(old(self).already_hit(), player),
            msg is Some <==> spec_zone_emits(old(self).already_hit(), player),
            msg is Some ==> msg == Some(DamageMessage {
                player_damage: old(self).player_damage,
                package_damage: old(self).package_damage,
            }),
            final(self).accel_modifier == old(self).accel_modifier,
            final(self).max_speed_mod == old(self).max_speed_mod,
            final(self).player_damage == old(self).player_damage,
            final(self).package_damage == old(self).package_damage,
    {
        match player {
            Some(a) => {
                if !vec_contains_u64(&self.hit, a) {
                    self.hit.push(a);
                    Some(DamageMessage {
                        player_damage: self.player_damage,
                        package_damage: self.package_damage,
                    })
                } else {
                    None
                }
            },
            None => {
                self.hit = Vec::new();
                None
            },
        }
    }
}

impl Default for TerrainEffect {
    /// A zone with no effect, no damage and no running episode.
    fn default() -> (z: Self)
        ensures
            z.accel_modifier == 0,
            z.max_speed_mod == 0,
            z.player_damage == 0,
            z.package_damage == 0,
            z.already_hit() == Seq::<u64>::empty(),
    {
        TerrainEffect::new(0, 0, 0, 0)
    }
}

/// How many damage messages `n` consecutive frames emit while the same
/// actor stays inside the zone.
pub open spec fn spec_emit_count(hit: Seq<u64>, a: u64, n: nat) -> nat
    decreases n,
{
    if n == 0 {
        0
    } else {
        (if spec_zone_emits(hit, Some(a)) {
            1nat
        } else {
            0nat
        }) + spec_emit_count(spec_zone_step(hit, Some(a)), a, (n - 1) as nat)
    }
}

/// An actor already damaged this episode is never damaged again while it
/// stays inside, however many frames pass.
pub proof fn lemma_no_reemit_while_inside(hit: Seq<u64>, a: u64, n: nat)
    requires
        hit.contains(a),
    ensures
        spec_emit_count(hit, a, n) == 0,
    decreases n,
{
    if n > 0 {
        assert(spec_zone_step(hit, Some(a)) == hit);
        lemma_no_reemit_while_inside(hit, a, (n - 1) as nat);
    }
}

/// Law: entering the zone and staying inside for any positive number of
/// frames emits exactly one damage message for that actor.
pub proof fn lemma_damage_once_per_episode(hit: Seq<u64>, a: u64, n: nat)
    requires
        !hit.contains(a),
        n >= 1,
    ensures
        spec_emit_count(hit, a, n) == 1,
{
    let pushed = hit.push(a);
    assert(pushed[hit.len() as int] == a);
    assert(pushed.contains(a));
    lemma_no_reemit_while_inside(pushed, a, (n - 1) as nat);
}

/// Law: a frame without overlap ends the episode, so an actor that leaves
/// and re-enters is damaged exactly once more, whatever was remembered.
pub proof fn lemma_reentry_emits_again(hit: Seq<u64>, a: u64, n: nat)
    requires
        n >= 1,
    ensures
        spec_emit_count(spec_zone_step(hit, None), a, n) == 1,
{
    let cleared = spec_zone_step(hit, None);
    assert(!cleared.contains(a));
    lemma_damage_once_per_episode(cleared, a, n);
}

} // verus!
