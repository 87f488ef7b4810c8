//! The contact classifier and the effect accumulator. The classifier reads
//! one frame's physics snapshot for one collider and tags each opposing
//! collider; the accumulator folds the classified contacts into the single
//! aggregate `ContactFlags` the motion resolver consumes.

use vstd::prelude::*;
use crate::motion::ContactFlags;
use crate::physics::ContactPair;
use crate::physics::IntersectionPair;
use crate::physics::PhysicsSnapshot;
use crate::physics::contact_is_ground;
use crate::physics::opposing_collider;
use crate::physics::pair_involves;
use crate::physics::spec_has_ground_contact;
use crate::physics::manifolds_have_ground;
use crate::scene::GameTag;
use crate::scene::SceneTags;
use crate::scene::spec_assoc;

verus! {

/// The most overlaps one snapshot may carry for the accumulator's sums:
/// 2^31 contributions of magnitude at most 2^31 keep every sum within
/// the i64 the aggregate holds.
pub const MAX_TRACKED_OVERLAPS: usize = 0x8000_0000;

/// One persistent contact after classification: the tag of the opposing
/// collider's owning object, if recognized, and whether any of the
/// contact's manifolds reports a floor-like surface.
#[derive(Clone, Copy, Debug)]
pub struct ClassifiedContact {
    pub tag: Option<GameTag>,
    pub ground: bool,
}

/// One frame's classified contacts for one collider: the persistent
/// (solid) contacts, and the tags of the active sensor overlaps whose
/// opposing object carries a recognized tag.
#[derive(Clone, Debug)]
pub struct ContactSet {
    pub touching: Vec<ClassifiedContact>,
    pub overlapping: Vec<GameTag>,
}

/// Classification of a single persistent contact of collider `h`.
pub open spec fn spec_classify_contact(
    c: ContactPair,
    h: u64,
    tags: Seq<(u64, GameTag)>,
) -> ClassifiedContact {
    ClassifiedContact {
        tag: spec_assoc(tags, opposing_collider(c.collider1, c.collider2, h)),
        ground: contact_is_ground(c),
    }
}

/// The classified persistent contacts of `h`, in snapshot order.
pub open spec fn spec_touching(
    contacts: Seq<ContactPair>,
    h: u64,
    tags: Seq<(u64, GameTag)>,
) -> Seq<ClassifiedContact>
    decreases contacts.len(),
{
    if contacts.len() == 0 {
        Seq::empty()
    } else {
        let rest = spec_touching(contacts.drop_last(), h, tags);
        let c = contacts.last();
        if pair_involves(c.collider1, c.collider2, h) {
            rest.push(spec_classify_contact(c, h, tags))
        } else {
            rest
        }
    }
}

/// The tags of the active overlaps of `h` whose opposing collider's
/// owning object carries a recognized tag, in snapshot order.
pub open spec fn spec_overlapping(
    intersections: Seq<IntersectionPair>,
    h: u64,
    tags: Seq<(u64, GameTag)>,
) -> Seq<GameTag>
    decreases intersections.len(),
{
    if intersections.len() == 0 {
        Seq::empty()
    } else {
        let rest = spec_overlapping(intersections.drop_last(), h, tags);
        let p = intersections.last();
        if p.has_any_active_contact && pair_involves(p.collider1, p.collider2, h) && spec_assoc(
            tags,
            opposing_collider(p.collider1, p.collider2, h),
        ) is Some {
            rest.push(spec_assoc(tags, opposing_collider(p.collider1, p.collider2, h)).unwrap())
        } else {
            rest
        }
    }
}

/// The classifier never reports more overlaps than the snapshot holds.
pub proof fn lemma_overlapping_len(
    intersections: Seq<IntersectionPair>,
    h: u64,
    tags: Seq<(u64, GameTag)>,
)
    ensures
        spec_overlapping(intersections, h, tags).len() <= intersections.len(),
    decreases intersections.len(),
{
    if intersections.len() > 0 {
        lemma_overlapping_len(intersections.drop_last(), h, tags);
    }
}

/// Reads the snapshot for collider `h` and classifies every opposing
/// collider by the tag of its owning object. Read-only; an opposing
/// collider with no recognized tag contributes no overlap entry and an
/// untagged persistent contact keeps only its ground information.
pub fn classify(snapshot: &PhysicsSnapshot, h: u64, tags: &SceneTags) -> (r: ContactSet)
    ensures
        r.touching@ == spec_touching(snapshot.contacts@, h, tags.entries@),
        r.overlapping@ == spec_overlapping(snapshot.intersections@, h, tags.entries@),
{
    let mut touching: Vec<ClassifiedContact> = Vec::new();
    let mut overlapping: Vec<GameTag> = Vec::new();

    let n = snapshot.contacts.len();
    let mut i: usize = 0;
    while i < n
        invariant
            n == snapshot.contacts@.len(),
            0 <= i <= n,
            touching@ == spec_touching(snapshot.contacts@.subrange(0, i as int), h, tags.entries@),
        decreases n - i,
    {
        proof {
            assert(snapshot.contacts@.subrange(0, i as int + 1).drop_last() =~= snapshot.contacts@
                .subrange(0, i as int));
            assert(snapshot.contacts@.subrange(0, i as int + 1).last() == snapshot.contacts@[i as int]);
        }
        let c = &snapshot.contacts[i];
        if c.collider1 == h || c.collider2 == h {
            let opposing = if c.collider1 == h {
                c.collider2
            } else {
                c.collider1
            };
            let ground = manifolds_have_ground(&c.manifolds);
            touching.push(ClassifiedContact { tag: tags.tag_of(opposing), ground });
        }
        i = i + 1;
    }
    proof {
        assert(snapshot.contacts@.subrange(0, n as int) =~= snapshot.contacts@);
    }

    let m = snapshot.intersections.len();
    let mut j: usize = 0;
    while j < m
        invariant
            m == snapshot.intersections@.len(),
            0 <= j <= m,
            overlapping@ == spec_overlapping(
                snapshot.intersections@.subrange(0, j as int),
                h,
                tags.entries@,
            ),
        decreases m - j,
    {
        proof {
            assert(snapshot.intersections@.subrange(0, j as int + 1).drop_last() =~= snapshot
                .intersections@.subrange(0, j as int));
            assert(snapshot.intersections@.subrange(0, j as int + 1).last() == snapshot
                .intersections@[j as int]);
        }
        let p = snapshot.intersections[j];
        if p.has_any_active_contact && (p.collider1 == h || p.collider2 == h) {
            let opposing = if p.collider1 == h {
                p.collider2
            } else {
                p.collider1
            };
            match tags.tag_of(opposing) {
                Some(tag) => overlapping.push(tag),
                None => (),
            }
        }
        j = j + 1;
    }
    proof {
        assert(snapshot.intersections@.subrange(0, m as int) =~= snapshot.intersections@);
    }

    ContactSet { touching, overlapping }
}

/// Whether any classified contact reports ground.
pub open spec fn spec_any_ground(s: Seq<ClassifiedContact>) -> bool {
    exists|i: int| 0 <= i < s.len() && (#[trigger] s[i]).ground
}

/// Whether any classified contact's opposing object is a reversal zone.
pub open spec fn spec_any_reversal(s: Seq<ClassifiedContact>) -> bool {
    exists|i: int| 0 <= i < s.len() && (#[trigger] s[i]).tag == Some(GameTag::Reversal)
}

/// Whether any active overlap is with a drop-off pickup point.
pub open spec fn spec_any_dropoff(s: Seq<GameTag>) -> bool {
    exists|i: int| 0 <= i < s.len() && #[trigger] s[i] == (GameTag::Pickup { is_drop_off: true })
}

/// The drop-off flag of the last overlapping pickup point, if any; with
/// several pickup points active at once the last write wins.
pub open spec fn spec_last_pickup(s: Seq<GameTag>) -> Option<bool>
    decreases s.len(),
{
    if s.len() == 0 {
        None
    } else {
        match s.last() {
            GameTag::Pickup { is_drop_off } => Some(is_drop_off),
            _ => spec_last_pickup(s.drop_last()),
        }
    }
}

/// A tag's contribution to the summed acceleration modifier, in
/// thousandths: hazards contribute their field, everything else nothing.
pub open spec fn accel_contrib(t: GameTag) -> int {
    match t {
        GameTag::Hazard { accel_modifier, .. } => accel_modifier as int,
        _ => 0,
    }
}

/// A tag's contribution to the summed top-speed modifier.
pub open spec fn speed_contrib(t: GameTag) -> int {
    match t {
        GameTag::Hazard { max_speed_mod, .. } => max_speed_mod as int,
        _ => 0,
    }
}

/// The sum of `f` over a sequence.
pub open spec fn sum_by<A>(s: Seq<A>, f: spec_fn(A) -> int) -> int
    decreases s.len(),
{
    if s.len() == 0 {
        0
    } else {
        sum_by(s.drop_last(), f) + f(s.last())
    }
}

/// The summed acceleration modifier of one frame's overlap tags.
pub open spec fn accel_sum(s: Seq<GameTag>) -> int {
    sum_by(s, |t: GameTag| accel_contrib(t))
}

/// The summed top-speed modifier of one frame's overlap tags.
pub open spec fn speed_sum(s: Seq<GameTag>) -> int {
    sum_by(s, |t: GameTag| speed_contrib(t))
}

/// Removing one element removes exactly its contribution from the sum.
proof fn lemma_sum_by_remove<A>(s: Seq<A>, f: spec_fn(A) -> int, j: int)
    requires
        0 <= j < s.len(),
    ensures
        sum_by(s.remove(j), f) == sum_by(s, f) - f(s[j]),
    decreases s.len(),
{
    if j == s.len() - 1 {
        assert(s.remove(j) =~= s.drop_last());
    } else {
        let t = s.remove(j);
        assert(t.drop_last() =~= s.drop_last().remove(j));
        assert(t.last() == s.last());
        lemma_sum_by_remove(s.drop_last(), f, j);
        assert(s.drop_last()[j] == s[j]);
    }
}

/// A sum over a sequence depends only on which elements occur, with
/// multiplicity, not on their order.
pub proof fn lemma_sum_by_permutation<A>(s: Seq<A>, t: Seq<A>, f: spec_fn(A) -> int)
    requires
        s.to_multiset() == t.to_multiset(),
    ensures
        sum_by(s, f) == sum_by(t, f),
    decreases s.len(),
{
    broadcast use vstd::seq_lib::group_to_multiset_ensures;

    if s.len() == 0 {
        assert(s.to_multiset().len() == 0);
        assert(t.to_multiset().len() == 0);
        assert(t.len() == 0);
    } else {
        let i = s.len() - 1;
        let x = s.last();
        assert(s.contains(x));
        assert(s.to_multiset().count(x) > 0);
        assert(t.to_multiset().count(x) > 0);
        assert(t.contains(x));
        let j = choose|j: int| 0 <= j < t.len() && t[j] == x;
        assert(s.remove(i).to_multiset() == s.to_multiset().remove(x));
        assert(t.remove(j).to_multiset() == t.to_multiset().remove(t[j]));
        lemma_sum_by_permutation(s.remove(i), t.remove(j), f);
        lemma_sum_by_remove(s, f, i);
        lemma_sum_by_remove(t, f, j);
    }
}

/// Law: for any set of simultaneously overlapping hazard zones, the
/// aggregate's two modifier sums are the arithmetic sums of each zone's
/// respective fields, whatever the enumeration order: two snapshots that
/// list the same overlap tags in different orders aggregate identically.
pub proof fn lemma_modifier_sums_order_independent(s: Seq<GameTag>, t: Seq<GameTag>)
    requires
        s.to_multiset() == t.to_multiset(),
    ensures
        accel_sum(s) == accel_sum(t),
        speed_sum(s) == speed_sum(t),
{
    lemma_sum_by_permutation(s, t, |g: GameTag| accel_contrib(g));
    lemma_sum_by_permutation(s, t, |g: GameTag| speed_contrib(g));
}

/// Folds one frame's classified contacts into the aggregate effect:
/// ground flag, additively accumulated terrain modifiers, reversal flag
/// (a touched reversal zone or an overlapped drop-off point), and the
/// pickup/drop-off decision of the last overlapped pickup point.
pub fn accumulate(set: &ContactSet) -> (flags: ContactFlags)
    requires
        set.overlapping@.len() <= MAX_TRACKED_OVERLAPS,
    ensures
        flags.ground_contact == spec_any_ground(set.touching@),
        flags.accel_modifier as int == accel_sum(set.overlapping@),
        flags.speed_modifier as int == speed_sum(set.overlapping@),
        flags.reverse_direction == (spec_any_reversal(set.touching@) || spec_any_dropoff(
            set.overlapping@,
        )),
        flags.package_pickup == (spec_last_pickup(set.overlapping@) == Some(false)),
        flags.package_drop == (spec_last_pickup(set.overlapping@) == Some(true)),
        flags.bounded(),
{
    let mut ground: bool = false;
    let mut reversal_touch: bool = false;

    let n = set.touching.len();
    let mut i: usize = 0;
    while i < n
        invariant
            n == set.touching@.len(),
            0 <= i <= n,
            ground == exists|k: int| 0 <= k < i && (#[trigger] set.touching@[k]).ground,
            reversal_touch == exists|k: int|
                0 <= k < i && (#[trigger] set.touching@[k]).tag == Some(GameTag::Reversal),
        decreases n - i,
    {
        let c = set.touching[i];
        if c.ground {
            ground = true;
        }
        match c.tag {
            Some(GameTag::Reversal) => {
                reversal_touch = true;
            },
            _ => (),
        }
        i = i + 1;
    }

    let mut accel: i64 = 0;
    let mut speed: i64 = 0;
    let mut dropoff: bool = false;
    let mut last_pickup: Option<bool> = None;

    let m = set.overlapping.len();
    let mut j: usize = 0;
    while j < m
        invariant
            m == set.overlapping@.len(),
            m <= 0x8000_0000,
            0 <= j <= m,
            accel as int == accel_sum(set.overlapping@.subrange(0, j as int)),
            speed as int == speed_sum(set.overlapping@.subrange(0, j as int)),
            -0x8000_0000 * (j as int) <= accel as int <= 0x8000_0000 * (j as int),
            -0x8000_0000 * (j as int) <= speed as int <= 0x8000_0000 * (j as int),
            dropoff == spec_any_dropoff(set.overlapping@.subrange(0, j as int)),
            last_pickup == spec_last_pickup(set.overlapping@.subrange(0, j as int)),
        decreases m - j,
    {
        proof {
            assert(set.overlapping@.subrange(0, j as int + 1).drop_last() =~= set.overlapping@
                .subrange(0, j as int));
            assert(set.overlapping@.subrange(0, j as int + 1).last() == set.overlapping@[j as int]);
        }
        let tag = set.overlapping[j];
        match tag {
            GameTag::Hazard { accel_modifier, max_speed_mod } => {
                accel = accel + (accel_modifier as i64);
                speed = speed + (max_speed_mod as i64);
            },
            GameTag::Pickup { is_drop_off } => {
                if is_drop_off {
                    dropoff = true;
                }
                last_pickup = Some(is_drop_off);
            },
            GameTag::Reversal => (),
        }
        j = j + 1;
    }
    proof {
        assert(set.overlapping@.subrange(0, m as int) =~= set.overlapping@);
    }

    ContactFlags {
        ground_contact: ground,
        accel_modifier: accel,
        speed_modifier: speed,
        reverse_direction: reversal_touch || dropoff,
        package_pickup: match last_pickup {
            Some(d) => !d,
            None => false,
        },
        package_drop: match last_pickup {
            Some(d) => d,
            None => false,
        },
    }
}

/// Law: a frame with no classified contacts at all aggregates to the
/// empty effect: all flags false, both modifier sums zero.
pub proof fn lemma_empty_aggregate()
    ensures
        !spec_any_ground(Seq::<ClassifiedContact>::empty()),
        !spec_any_reversal(Seq::<ClassifiedContact>::empty()),
        !spec_any_dropoff(Seq::<GameTag>::empty()),
        spec_last_pickup(Seq::<GameTag>::empty()) is None,
        accel_sum(Seq::<GameTag>::empty()) == 0,
        speed_sum(Seq::<GameTag>::empty()) == 0,
{
}

/// The classified contacts report ground exactly when some persistent
/// contact involving `h` has a floor-like manifold.
pub proof fn lemma_classified_ground(
    contacts: Seq<ContactPair>,
    h: u64,
    tags: Seq<(u64, GameTag)>,
)
    ensures
        spec_any_ground(spec_touching(contacts, h, tags)) == spec_has_ground_contact(contacts, h),
    decreases contacts.len(),
{
    if contacts.len() == 0 {
        assert(!spec_has_ground_contact(contacts, h));
    } else {
        let pre = contacts.drop_last();
        let c = contacts.last();
        lemma_classified_ground(pre, h, tags);
        let t_pre = spec_touching(pre, h, tags);
        let t_all = spec_touching(contacts, h, tags);

        if spec_any_ground(t_all) {
            let i = choose|i: int| 0 <= i < t_all.len() && (#[trigger] t_all[i]).ground;
            if i < t_pre.len() {
                assert(t_pre[i].ground);
                assert(spec_has_ground_contact(pre, h));
                let k = choose|k: int|
                    0 <= k < pre.len() && pair_involves(
                        (#[trigger] pre[k]).collider1,
                        pre[k].collider2,
                        h,
                    ) && contact_is_ground(pre[k]);
                assert(contacts[k] == pre[k]);
                assert(spec_has_ground_contact(contacts, h));
            } else {
                assert(pair_involves(c.collider1, c.collider2, h) && contact_is_ground(c));
                assert(contacts[contacts.len() - 1] == c);
                assert(spec_has_ground_contact(contacts, h));
            }
        }
        if spec_has_ground_contact(contacts, h) {
            let k = choose|k: int|
                0 <= k < contacts.len() && pair_involves(
                    (#[trigger] contacts[k]).collider1,
                    contacts[k].collider2,
                    h,
                ) && contact_is_ground(contacts[k]);
            if k < contacts.len() - 1 {
                assert(pre[k] == contacts[k]);
                assert(spec_has_ground_contact(pre, h));
                let i = choose|i: int| 0 <= i < t_pre.len() && (#[trigger] t_pre[i]).ground;
                if pair_involves(c.collider1, c.collider2, h) {
                    assert(t_all[i] == t_pre[i]);
                } else {
                    assert(t_all == t_pre);
                }
                assert(spec_any_ground(t_all));
            } else {
                assert(contacts[k] == c);
                assert(t_all.last().ground);
                assert(spec_any_ground(t_all));
            }
        }
    }
}

/// Whether some persistent contact of `h` opposes a reversal-tagged
/// object, read straight off the snapshot.
pub open spec fn spec_reversal_contact(
    contacts: Seq<ContactPair>,
    h: u64,
    tags: Seq<(u64, GameTag)>,
) -> bool {
    exists|i: int|
        0 <= i < contacts.len() && pair_involves(
            (#[trigger] contacts[i]).collider1,
            contacts[i].collider2,
            h,
        ) && spec_assoc(tags, opposing_collider(contacts[i].collider1, contacts[i].collider2, h))
            == Some(GameTag::Reversal)
}

/// The classified contacts report a reversal zone exactly when some
/// persistent contact involving `h` opposes a reversal-tagged object.
pub proof fn lemma_classified_reversal(
    contacts: Seq<ContactPair>,
    h: u64,
    tags: Seq<(u64, GameTag)>,
)
    ensures
        spec_any_reversal(spec_touching(contacts, h, tags)) == spec_reversal_contact(
            contacts,
            h,
            tags,
        ),
    decreases contacts.len(),
{
    if contacts.len() == 0 {
        assert(!spec_reversal_contact(contacts, h, tags));
    } else {
        let pre = contacts.drop_last();
        let c = contacts.last();
        lemma_classified_reversal(pre, h, tags);
        let t_pre = spec_touching(pre, h, tags);
        let t_all = spec_touching(contacts, h, tags);

        if spec_any_reversal(t_all) {
            let i = choose|i: int|
                0 <= i < t_all.len() && (#[trigger] t_all[i]).tag == Some(GameTag::Reversal);
            if i < t_pre.len() {
                assert(t_pre[i].tag == Some(GameTag::Reversal));
                assert(spec_any_reversal(t_pre));
                let k = choose|k: int|
                    0 <= k < pre.len() && pair_involves(
                        (#[trigger] pre[k]).collider1,
                        pre[k].collider2,
                        h,
                    ) && spec_assoc(
                        tags,
                        opposing_collider(pre[k].collider1, pre[k].collider2, h),
                    ) == Some(GameTag::Reversal);
                assert(contacts[k] == pre[k]);
                assert(spec_reversal_contact(contacts, h, tags));
            } else {
                assert(pair_involves(c.collider1, c.collider2, h));
                assert(contacts[contacts.len() - 1] == c);
                assert(spec_reversal_contact(contacts, h, tags));
            }
        }
        if spec_reversal_contact(contacts, h, tags) {
            let k = choose|k: int|
                0 <= k < contacts.len() && pair_involves(
                    (#[trigger] contacts[k]).collider1,
                    contacts[k].collider2,
                    h,
                ) && spec_assoc(
                    tags,
                    opposing_collider(contacts[k].collider1, contacts[k].collider2, h),
                ) == Some(GameTag::Reversal);
            if k < contacts.len() - 1 {
                assert(pre[k] == contacts[k]);
                assert(spec_reversal_contact(pre, h, tags));
                let i = choose|i: int|
                    0 <= i < t_pre.len() && (#[trigger] t_pre[i]).tag == Some(GameTag::Reversal);
                if pair_involves(c.collider1, c.collider2, h) {
                    assert(t_all[i] == t_pre[i]);
                } else {
                    assert(t_all == t_pre);
                }
                assert(spec_any_reversal(t_all));
            } else {
                assert(contacts[k] == c);
                assert(t_all.last().tag == Some(GameTag::Reversal));
                assert(spec_any_reversal(t_all));
            }
        }
    }
}

} // verus!
