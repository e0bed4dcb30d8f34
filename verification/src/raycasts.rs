//! Melee rays: where a swing's ray points, which of its contacts count as
//! hits, and what a hit takes from a health pool.

use crate::hud::PlayerStats;
use crate::units::{clamp_int, mirror, mirrored, Vec2};
use std::collections::HashSet;
use vstd::prelude::*;

verus! {

/// The largest share of a hit that defense can take away, per mille.
pub const MAX_DEFENSE: i32 = 950;

/// An actor's melee ray, fixed when the actor is spawned.
#[derive(Clone, Copy, Debug, PartialEq, Eq)]
pub struct MeleeRaycastSpec {
    /// Where the ray starts, relative to an actor that looks right.
    pub offset: Vec2,
    pub length: i32,
    pub max_hits: u32,
    /// Damage of a hit before the target's defense.
    pub damage: i32,
    /// Mask of the layers the ray can hit.
    pub filter: u32,
    pub solid: bool,
    /// Whether one swing hits the same target at most once.
    pub once_per_swing: bool,
}

/// Tag of an actor whose melee ray is live.
#[derive(Clone, Copy, Debug, Default, PartialEq, Eq)]
pub struct MeleeAttackActive;

/// One contact of a ray, as the physics engine reports it.
#[derive(Clone, Copy, Debug, PartialEq, Eq)]
pub struct RayHit {
    pub entity: u64,
    pub distance: i32,
    pub normal: Vec2,
}

/// A hit that counts: who hit whom, and the damage before defense.
#[derive(Clone, Copy, Debug, PartialEq, Eq)]
pub struct MeleeRaycastHit {
    pub attacker: u64,
    pub target: u64,
    pub distance: i32,
    pub normal: Vec2,
    pub damage: i32,
}

/// The ray to cast for a swing. The direction is `1` to the right and `-1`
/// to the left.
#[derive(Clone, Copy, Debug, PartialEq, Eq)]
pub struct AttackRay {
    pub origin: Vec2,
    pub direction: i32,
    pub max_distance: i32,
    pub max_hits: u32,
    pub ignore_self: bool,
    pub solid: bool,
    pub filter: u32,
}

/// The targets that the swing under way has hit. It begins empty with the
/// swing and goes with it.
#[derive(Debug)]
pub struct AlreadyHit(pub HashSet<u64>);

impl AlreadyHit {
    /// The set of a swing that has hit nothing yet.
    pub fn new() -> (already: AlreadyHit)
        ensures
            already.0@ == Set::<u64>::empty(),
    {
        AlreadyHit(HashSet::new())
    }
}

/// The two stages of melee resolution, in the order they run.
#[derive(Clone, Copy, Debug, PartialEq, Eq, Hash, Structural)]
pub enum RaycastMeleeSet {
    Cast,
    ApplyDamage,
}

// ───────── Aiming ─────────
/// Whether the actor looks right: by its sprite if it has one, else by the
/// sign of its horizontal scale, else yes.
pub open spec fn facing_right(flip_x: Option<bool>, scale_x: Option<i32>) -> bool {
    match flip_x {
        Some(flipped) => !flipped,
        None => match scale_x {
            Some(scale) => scale >= 0,
            None => true,
        },
    }
}

/// Computes [`facing_right`].
pub fn is_facing_right(flip_x: Option<bool>, scale_x: Option<i32>) -> (right: bool)
    ensures
        right == facing_right(flip_x, scale_x),
{
    match flip_x {
        Some(flipped) => !flipped,
        None => match scale_x {
            Some(scale) => scale >= 0,
            None => true,
        },
    }
}

impl MeleeRaycastSpec {
    /// Where the ray starts: the offset, mirrored for an actor that looks
    /// left.
    pub open spec fn origin(self, right: bool) -> Vec2 {
        if right {
            self.offset
        } else {
            Vec2 { x: mirrored(self.offset.x), y: self.offset.y }
        }
    }

    /// The ray of a swing by an actor that looks the given way.
    pub open spec fn ray(self, right: bool) -> AttackRay {
        AttackRay {
            origin: self.origin(right),
            direction: if right {
                1i32
            } else {
                -1i32
            },
            max_distance: self.length,
            max_hits: self.max_hits,
            ignore_self: true,
            solid: self.solid,
            filter: self.filter,
        }
    }
}

/// What a swing begins with: the ray to cast, and the set of targets hit,
/// which is empty. The set takes the place of any set an earlier swing left.
pub fn spawn_ray_on_attack_start(spec: &MeleeRaycastSpec, right: bool) -> (swing: (
    AttackRay,
    AlreadyHit,
))
    ensures
        swing.0 == spec.ray(right),
        swing.1.0@ == Set::<u64>::empty(),
{
    let origin = if right {
        spec.offset
    } else {
        Vec2 { x: mirror(spec.offset.x), y: spec.offset.y }
    };
    let ray = AttackRay {
        origin,
        direction: if right {
            1
        } else {
            -1
        },
        max_distance: spec.length,
        max_hits: spec.max_hits,
        ignore_self: true,
        solid: spec.solid,
        filter: spec.filter,
    };
    (ray, AlreadyHit::new())
}

/// Points a live ray the way its actor looks now. Only origin and direction
/// change.
pub fn keep_ray_facing_correctly(ray: &mut AttackRay, spec: &MeleeRaycastSpec, right: bool)
    ensures
        *final(ray) == (AttackRay {
            origin: spec.origin(right),
            direction: spec.ray(right).direction,
            ..*old(ray)
        }),
{
    ray.origin = if right {
        spec.offset
    } else {
        Vec2 { x: mirror(spec.offset.x), y: spec.offset.y }
    };
    ray.direction = if right {
        1
    } else {
        -1
    };
}

/// One child of an actor whose swing has ended.
#[derive(Clone, Copy, Debug, PartialEq, Eq)]
pub struct Child {
    pub entity: u64,
    /// Whether the child is an attack ray.
    pub is_ray: bool,
}

/// The attack rays among the children, in order.
pub open spec fn rays_among(children: Seq<Child>) -> Seq<u64>
    decreases children.len(),
{
    if children.len() == 0 {
        Seq::empty()
    } else if children.last().is_ray {
        rays_among(children.drop_last()).push(children.last().entity)
    } else {
        rays_among(children.drop_last())
    }
}

/// Ends a swing: returns the children to despawn, which are its attack
/// rays, and forgets the targets the swing has hit.
pub fn despawn_ray_on_attack_end(children: &Vec<Child>, already: &mut AlreadyHit) -> (gone: Vec<
    u64,
>)
    ensures
        gone@ == rays_among(children@),
        final(already).0@ == Set::<u64>::empty(),
{
    already.0.clear();
    let mut gone: Vec<u64> = Vec::new();
    let mut i: usize = 0;
    while i < children.len()
        invariant
            i <= children.len(),
            already.0@ == Set::<u64>::empty(),
            gone@ == rays_among(children@.subrange(0, i as int)),
        decreases children.len() - i,
    {
        proof {
            let grown = children@.subrange(0, i + 1);
            assert(grown.drop_last() == children@.subrange(0, i as int));
        }
        if children[i].is_ray {
            gone.push(children[i].entity);
        }
        i += 1;
    }
    proof {
        assert(children@.subrange(0, children.len() as int) == children@);
    }
    gone
}

// ───────── Hits ─────────
/// Whether `target` is among the contacts.
pub open spec fn touches(hits: Seq<RayHit>, target: u64) -> bool {
    exists|i: int| 0 <= i < hits.len() && (#[trigger] hits[i]).entity == target
}

/// The targets a swing has hit once these contacts are dealt with. Without
/// once-per-swing nothing is remembered.
pub open spec fn hit_after(hits: Seq<RayHit>, already: Set<u64>, once: bool) -> Set<u64>
    decreases hits.len(),
{
    if !once || hits.len() == 0 {
        already
    } else {
        hit_after(hits.drop_last(), already, once).insert(hits.last().entity)
    }
}

/// The contacts that count as hits, in the order reported. With
/// once-per-swing a contact counts only if its target was not hit before in
/// this swing, neither on an earlier tick nor earlier on this one.
pub open spec fn fresh_hits(hits: Seq<RayHit>, already: Set<u64>, once: bool) -> Seq<RayHit>
    decreases hits.len(),
{
    if hits.len() == 0 {
        Seq::empty()
    } else {
        let before = fresh_hits(hits.drop_last(), already, once);
        if once && hit_after(hits.drop_last(), already, once).contains(hits.last().entity) {
            before
        } else {
            before.push(hits.last())
        }
    }
}

/// The hit event of a contact.
pub open spec fn event_of(attacker: u64, damage: i32, hit: RayHit) -> MeleeRaycastHit {
    MeleeRaycastHit {
        attacker,
        target: hit.entity,
        distance: hit.distance,
        normal: hit.normal,
        damage,
    }
}

/// The hit events of the contacts that count.
pub open spec fn events_of(attacker: u64, damage: i32, hits: Seq<RayHit>) -> Seq<MeleeRaycastHit> {
    hits.map_values(|hit: RayHit| event_of(attacker, damage, hit))
}

/// Turns this tick's contacts of an attacker's ray into hit events and
/// remembers the targets in `already`, the set of this swing.
pub fn emit_hits_from_rays(
    attacker: u64,
    spec: &MeleeRaycastSpec,
    hits: &Vec<RayHit>,
    already: &mut AlreadyHit,
) -> (events: Vec<MeleeRaycastHit>)
    ensures
        final(already).0@ == hit_after(hits@, old(already).0@, spec.once_per_swing),
        events@ == events_of(
            attacker,
            spec.damage,
            fresh_hits(hits@, old(already).0@, spec.once_per_swing),
        ),
{
    broadcast use vstd::std_specs::hash::group_hash_axioms;

    let once = spec.once_per_swing;
    let mut events: Vec<MeleeRaycastHit> = Vec::new();
    let mut i: usize = 0;
    while i < hits.len()
        invariant
            i <= hits.len(),
            once == spec.once_per_swing,
            already.0@ == hit_after(hits@.subrange(0, i as int), old(already).0@, once),
            events@ == events_of(
                attacker,
                spec.damage,
                fresh_hits(hits@.subrange(0, i as int), old(already).0@, once),
            ),
        decreases hits.len() - i,
    {
        let hit = hits[i];
        proof {
            let grown = hits@.subrange(0, i + 1);
            assert(grown.drop_last() == hits@.subrange(0, i as int));
        }
        let seen = once && already.0.contains(&hit.entity);
        if once {
            already.0.insert(hit.entity);
        }
        if !seen {
            events.push(
                MeleeRaycastHit {
                    attacker,
                    target: hit.entity,
                    distance: hit.distance,
                    normal: hit.normal,
                    damage: spec.damage,
                },
            );
        }
        i += 1;
    }
    proof {
        assert(hits@.subrange(0, hits.len() as int) == hits@);
    }
    events
}

/// How many of the contacts are with `target`.
pub open spec fn count_for(hits: Seq<RayHit>, target: u64) -> nat
    decreases hits.len(),
{
    if hits.len() == 0 {
        0
    } else if hits.last().entity == target {
        count_for(hits.drop_last(), target) + 1
    } else {
        count_for(hits.drop_last(), target)
    }
}

/// The contacts that count as hits over the ticks of one swing, the set of
/// targets hit carried from tick to tick.
pub open spec fn swing_hits(ticks: Seq<Seq<RayHit>>, already: Set<u64>, once: bool) -> Seq<RayHit>
    decreases ticks.len(),
{
    if ticks.len() == 0 {
        Seq::empty()
    } else {
        fresh_hits(ticks.first(), already, once) + swing_hits(
            ticks.drop_first(),
            hit_after(ticks.first(), already, once),
            once,
        )
    }
}

/// With once-per-swing, the targets remembered after a tick are those
/// remembered before and those touched on it.
pub proof fn lemma_hit_after_is_union(hits: Seq<RayHit>, already: Set<u64>, target: u64)
    ensures
        hit_after(hits, already, true).contains(target) <==> already.contains(target) || touches(
            hits,
            target,
        ),
    decreases hits.len(),
{
    if hits.len() > 0 {
        let head = hits.drop_last();
        lemma_hit_after_is_union(head, already, target);
        lemma_touches_grows(hits, target);
    }
}

/// A run of contacts touches a target exactly if its last contact is with
/// it or the contacts before touch it.
pub proof fn lemma_touches_grows(hits: Seq<RayHit>, target: u64)
    requires
        hits.len() > 0,
    ensures
        touches(hits, target) <==> hits.last().entity == target || touches(
            hits.drop_last(),
            target,
        ),
{
    let head = hits.drop_last();
    if touches(head, target) {
        let i = choose|i: int| 0 <= i < head.len() && (#[trigger] head[i]).entity == target;
        assert(hits[i].entity == target);
    }
    if hits.last().entity == target {
        assert(hits[hits.len() - 1].entity == target);
    }
    if touches(hits, target) && hits.last().entity != target {
        let i = choose|i: int| 0 <= i < hits.len() && (#[trigger] hits[i]).entity == target;
        assert(head[i].entity == target);
    }
}

/// With once-per-swing, one tick yields exactly one hit on a target that is
/// touched and was not hit before in the swing, and none on any other.
pub proof fn lemma_fresh_hits_count(hits: Seq<RayHit>, already: Set<u64>, target: u64)
    ensures
        count_for(fresh_hits(hits, already, true), target) == (if !already.contains(target)
            && touches(hits, target) {
            1nat
        } else {
            0nat
        }),
    decreases hits.len(),
{
    if hits.len() > 0 {
        let head = hits.drop_last();
        lemma_fresh_hits_count(head, already, target);
        lemma_hit_after_is_union(head, already, target);
        lemma_touches_grows(hits, target);
        let before = fresh_hits(head, already, true);
        assert(before.push(hits.last()).drop_last() == before);
    }
}

/// Counting over two runs of contacts adds up.
pub proof fn lemma_count_adds(a: Seq<RayHit>, b: Seq<RayHit>, target: u64)
    ensures
        count_for(a + b, target) == count_for(a, target) + count_for(b, target),
    decreases b.len(),
{
    if b.len() > 0 {
        lemma_count_adds(a, b.drop_last(), target);
        assert((a + b).drop_last() == a + b.drop_last());
    }
}

/// A target already hit in a swing is not hit again for the rest of it,
/// whatever the ray touches.
pub proof fn lemma_no_hit_once_remembered(
    ticks: Seq<Seq<RayHit>>,
    already: Set<u64>,
    target: u64,
)
    requires
        already.contains(target),
    ensures
        count_for(swing_hits(ticks, already, true), target) == 0,
    decreases ticks.len(),
{
    if ticks.len() > 0 {
        lemma_fresh_hits_count(ticks.first(), already, target);
        lemma_hit_after_is_union(ticks.first(), already, target);
        lemma_no_hit_once_remembered(
            ticks.drop_first(),
            hit_after(ticks.first(), already, true),
            target,
        );
        lemma_count_adds(
            fresh_hits(ticks.first(), already, true),
            swing_hits(ticks.drop_first(), hit_after(ticks.first(), already, true), true),
            target,
        );
    }
}

/// Once per swing: over any number of ticks on which the ray touches a
/// target, one after the other in a single swing, exactly one hit on that
/// target counts.
pub proof fn lemma_one_hit_per_swing(ticks: Seq<Seq<RayHit>>, target: u64)
    requires
        ticks.len() >= 1,
        forall|i: int| 0 <= i < ticks.len() ==> touches(#[trigger] ticks[i], target),
    ensures
        count_for(swing_hits(ticks, Set::empty(), true), target) == 1,
{
    let already = Set::<u64>::empty();
    lemma_fresh_hits_count(ticks.first(), already, target);
    lemma_hit_after_is_union(ticks.first(), already, target);
    lemma_no_hit_once_remembered(
        ticks.drop_first(),
        hit_after(ticks.first(), already, true),
        target,
    );
    lemma_count_adds(
        fresh_hits(ticks.first(), already, true),
        swing_hits(ticks.drop_first(), hit_after(ticks.first(), already, true), true),
        target,
    );
}

/// Without once-per-swing every contact counts, on every tick, and nothing
/// is remembered.
pub proof fn lemma_every_contact_counts_without_dedup(hits: Seq<RayHit>, already: Set<u64>)
    ensures
        fresh_hits(hits, already, false) == hits,
        hit_after(hits, already, false) == already,
    decreases hits.len(),
{
    if hits.len() > 0 {
        lemma_every_contact_counts_without_dedup(hits.drop_last(), already);
    }
}

// ───────── Damage ─────────
/// The defense that counts: the target's, kept between nothing and
/// [`MAX_DEFENSE`].
pub open spec fn effective_defense(defense: i32) -> int {
    clamp_int(defense as int, 0, MAX_DEFENSE as int)
}

/// The damage a hit does after defense: the share of the raw damage that
/// defense lets through, rounded up to whole points, and never less than
/// nothing.
pub open spec fn mitigated(raw: i32, defense: i32) -> int {
    if raw <= 0 {
        0
    } else {
        (raw * (1000 - effective_defense(defense)) + 999) / 1000
    }
}

/// The health left after a hit, never below zero.
pub open spec fn health_after(health: u32, raw: i32, defense: i32) -> u32 {
    if mitigated(raw, defense) >= health {
        0
    } else {
        (health - mitigated(raw, defense)) as u32
    }
}

/// Computes [`mitigated`].
pub fn mitigated_damage(raw: i32, defense: i32) -> (damage: u32)
    ensures
        damage == mitigated(raw, defense),
        raw > 0 ==> 1 <= damage <= raw,
{
    if raw <= 0 {
        return 0;
    }
    let kept: i64 = if defense < 0 {
        1000
    } else if defense > MAX_DEFENSE {
        1000 - MAX_DEFENSE as i64
    } else {
        1000 - defense as i64
    };
    let raw: i64 = raw as i64;
    assert(50 * raw <= raw * kept <= 1000 * raw) by (nonlinear_arith)
        requires
            50 <= kept <= 1000,
            raw > 0,
    ;
    ((raw * kept + 999) / 1000) as u32
}

/// Computes [`health_after`].
pub fn damaged_health(health: u32, raw: i32, defense: i32) -> (left: u32)
    ensures
        left == health_after(health, raw, defense),
        left <= health,
{
    let damage = mitigated_damage(raw, defense);
    if damage >= health {
        0
    } else {
        health - damage
    }
}

/// The mitigated damage is the raw damage times the share let through,
/// rounded up: it is the least whole number that is not below that product.
pub proof fn lemma_mitigated_is_ceiling(raw: i32, defense: i32)
    requires
        raw > 0,
    ensures
        1000 * (mitigated(raw, defense) - 1) < raw * (1000 - effective_defense(defense)),
        raw * (1000 - effective_defense(defense)) <= 1000 * mitigated(raw, defense),
{
}

/// More defense never means more damage: for the same raw damage, the
/// mitigated damage does not grow as defense grows.
pub proof fn lemma_mitigation_monotonic(raw: i32, weaker: i32, stronger: i32)
    requires
        weaker < stronger,
    ensures
        mitigated(raw, weaker) >= mitigated(raw, stronger),
{
    if raw > 0 {
        let kept_weaker = 1000 - effective_defense(weaker);
        let kept_stronger = 1000 - effective_defense(stronger);
        assert(raw * kept_weaker >= raw * kept_stronger) by (nonlinear_arith)
            requires
                raw > 0,
                kept_weaker >= kept_stronger,
        ;
    }
}

/// An entity that takes hits for the player, with the defense of its class
/// where it has one.
#[derive(Clone, Copy, Debug, PartialEq, Eq)]
pub struct PlayerTarget {
    pub entity: u64,
    pub defense: Option<i32>,
}

/// The defense of the first target with the given entity; `None` where the
/// entity is no target, and no defense where the target has no class.
pub open spec fn defense_of(targets: Seq<PlayerTarget>, entity: u64) -> Option<i32>
    decreases targets.len(),
{
    if targets.len() == 0 {
        None
    } else if targets.first().entity == entity {
        Some(targets.first().defense.unwrap_or(0))
    } else {
        defense_of(targets.drop_first(), entity)
    }
}

/// The player's health after the hits, taken in order: a hit on a target
/// takes its mitigated damage, a hit on anything else takes nothing.
pub open spec fn health_after_hits(
    health: u32,
    hits: Seq<MeleeRaycastHit>,
    targets: Seq<PlayerTarget>,
) -> u32
    decreases hits.len(),
{
    if hits.len() == 0 {
        health
    } else {
        let before = health_after_hits(health, hits.drop_last(), targets);
        match defense_of(targets, hits.last().target) {
            Some(defense) => health_after(before, hits.last().damage, defense),
            None => before,
        }
    }
}

/// Computes [`defense_of`].
pub fn find_defense(targets: &Vec<PlayerTarget>, entity: u64) -> (defense: Option<i32>)
    ensures
        defense == defense_of(targets@, entity),
{
    let mut i: usize = 0;
    proof {
        assert(targets@.subrange(0, targets@.len() as int) == targets@);
    }
    while i < targets.len()
        invariant
            i <= targets.len(),
            defense_of(targets@, entity) == defense_of(
                targets@.subrange(i as int, targets@.len() as int),
                entity,
            ),
        decreases targets.len() - i,
    {
        proof {
            let rest = targets@.subrange(i as int, targets@.len() as int);
            assert(rest.drop_first() == targets@.subrange(i + 1, targets@.len() as int));
        }
        if targets[i].entity == entity {
            return Some(
                match targets[i].defense {
                    Some(defense) => defense,
                    None => 0,
                },
            );
        }
        i += 1;
    }
    None
}

/// Takes the hits on the player's targets from the player's health. Only
/// health changes, and it never rises.
pub fn apply_melee_damage_to_player_stats(
    stats: &mut PlayerStats,
    hits: &Vec<MeleeRaycastHit>,
    targets: &Vec<PlayerTarget>,
)
    ensures
        *final(stats) == (PlayerStats {
            health: health_after_hits(old(stats).health, hits@, targets@),
            ..*old(stats)
        }),
        final(stats).health <= old(stats).health,
        old(stats).wf() ==> final(stats).wf(),
{
    let mut i: usize = 0;
    while i < hits.len()
        invariant
            i <= hits.len(),
            *stats == (PlayerStats {
                health: health_after_hits(
                    old(stats).health,
                    hits@.subrange(0, i as int),
                    targets@,
                ),
                ..*old(stats)
            }),
            stats.health <= old(stats).health,
        decreases hits.len() - i,
    {
        proof {
            let grown = hits@.subrange(0, i + 1);
            assert(grown.drop_last() == hits@.subrange(0, i as int));
        }
        match find_defense(targets, hits[i].target) {
            Some(defense) => {
                stats.health = damaged_health(stats.health, hits[i].damage, defense);
            },
            None => {},
        }
        i += 1;
    }
    proof {
        assert(hits@.subrange(0, hits.len() as int) == hits@);
    }
}

} // verus!
