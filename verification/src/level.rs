//! One-way platforms: bodies pass through them from below and rest on them
//! from above.

use crate::units::Vec2;
use std::collections::HashSet;
use vstd::prelude::*;

verus! {

/// How a body deals with one-way platforms.
#[derive(Clone, Copy, Debug, PartialEq, Eq, Structural)]
pub enum PassThroughOneWayPlatform {
    /// Pass through unless the contact pushes the body up off the platform.
    ByNormal,
    /// Pass through always.
    Always,
    /// Pass through never.
    Never,
}

impl Default for PassThroughOneWayPlatform {
    fn default() -> (mode: PassThroughOneWayPlatform)
        ensures
            mode == PassThroughOneWayPlatform::ByNormal,
    {
        PassThroughOneWayPlatform::ByNormal
    }
}

/// How the player deals with one-way platforms this tick, and whether its
/// body is to be woken: it drops through while down and jump are both held.
pub fn pass_through_one_way_platform(down_held: bool, jump_held: bool) -> (decision: (
    PassThroughOneWayPlatform,
    bool,
))
    ensures
        decision == (if down_held && jump_held {
            (PassThroughOneWayPlatform::Always, true)
        } else {
            (PassThroughOneWayPlatform::ByNormal, false)
        }),
{
    if down_held && jump_held {
        (PassThroughOneWayPlatform::Always, true)
    } else {
        (PassThroughOneWayPlatform::ByNormal, false)
    }
}

/// A one-way platform: the bodies that are passing through it.
#[derive(Debug)]
pub struct OneWayPlatform(pub HashSet<u64>);

/// A change to the bodies that pass through a platform.
#[derive(Clone, Copy, Debug, PartialEq, Eq)]
pub enum OneWayPlatformCommand {
    Add { platform_entity: u64, entity: u64 },
    Remove { platform_entity: u64, entity: u64 },
}

impl OneWayPlatformCommand {
    /// The bodies passing through a platform once the command is applied to
    /// it.
    pub open spec fn applied(self, passing: Set<u64>) -> Set<u64> {
        match self {
            OneWayPlatformCommand::Add { platform_entity, entity } => passing.insert(entity),
            OneWayPlatformCommand::Remove { platform_entity, entity } => passing.remove(entity),
        }
    }

    /// Applies the command to the platform it names.
    pub fn apply(self, platform: &mut OneWayPlatform)
        ensures
            final(platform).0@ == self.applied(old(platform).0@),
    {
        broadcast use vstd::std_specs::hash::group_hash_axioms;

        match self {
            OneWayPlatformCommand::Add { platform_entity, entity } => {
                platform.0.insert(entity);
            },
            OneWayPlatformCommand::Remove { platform_entity, entity } => {
                platform.0.remove(&entity);
            },
        }
    }
}

/// Which of the two colliders of a contact is the platform.
#[derive(Clone, Copy, Debug, PartialEq, Eq, Structural)]
pub enum PlatformSide {
    First,
    Second,
}

/// One patch of a contact: its normal, per mille, pointing from the first
/// collider to the second, and how deep each of its points has sunk in.
#[derive(Clone, Debug)]
pub struct Manifold {
    pub normal: Vec2,
    pub penetrations: Vec<i32>,
}

/// What the collision hook decides for a contact.
#[derive(Clone, Copy, Debug, PartialEq, Eq)]
pub struct ContactDecision {
    /// Whether the contact stays.
    pub keep: bool,
    /// Whether the body stops counting as passing through the platform.
    pub remove: bool,
    /// Whether the body starts to count as passing through the platform.
    pub add: bool,
}

/// Whether any point of the patch has sunk in.
pub open spec fn patch_penetrates(manifold: Manifold) -> bool {
    exists|i: int|
        0 <= i < manifold.penetrations@.len() && #[trigger] manifold.penetrations@[i] > 0
}

/// Whether any point of any patch has sunk in.
pub open spec fn any_penetrating(manifolds: Seq<Manifold>) -> bool {
    exists|i: int| 0 <= i < manifolds.len() && patch_penetrates(#[trigger] manifolds[i])
}

/// The normal of a patch as seen from the platform.
pub open spec fn platform_normal(manifold: Manifold, side: PlatformSide) -> (int, int) {
    match side {
        PlatformSide::First => (manifold.normal.x as int, manifold.normal.y as int),
        PlatformSide::Second => (-(manifold.normal.x as int), -(manifold.normal.y as int)),
    }
}

/// Whether the patch pushes the body up off the platform: its normal has a
/// length and lies within sixty degrees of the platform's up.
pub open spec fn pushes_up(manifold: Manifold, side: PlatformSide, up: Vec2) -> bool {
    let (x, y) = platform_normal(manifold, side);
    (x != 0 || y != 0) && x * up.x + y * up.y >= 500_000
}

/// Whether every patch pushes the body up off the platform.
pub open spec fn all_push_up(manifolds: Seq<Manifold>, side: PlatformSide, up: Vec2) -> bool {
    forall|i: int| 0 <= i < manifolds.len() ==> pushes_up(#[trigger] manifolds[i], side, up)
}

/// What the hook decides for a contact with a platform.
///
/// A body that is passing through and has sunk in keeps passing: the
/// contact goes. One that is passing and has not sunk in stops counting as
/// passing, and is then judged like any other: a body that never passes
/// keeps the contact; one that always passes loses it and counts as
/// passing; any other keeps it exactly if every patch pushes it up off the
/// platform, and counts as passing if not.
pub open spec fn contact_decision(
    passing: bool,
    manifolds: Seq<Manifold>,
    side: PlatformSide,
    up: Vec2,
    mode: Option<PassThroughOneWayPlatform>,
) -> ContactDecision {
    if passing && any_penetrating(manifolds) {
        ContactDecision { keep: false, remove: false, add: false }
    } else {
        let keep = match mode {
            Some(PassThroughOneWayPlatform::Never) => true,
            Some(PassThroughOneWayPlatform::Always) => false,
            _ => all_push_up(manifolds, side, up),
        };
        ContactDecision { keep, remove: passing, add: !keep }
    }
}

/// Computes [`patch_penetrates`].
pub fn is_patch_penetrating(manifold: &Manifold) -> (b: bool)
    ensures
        b == patch_penetrates(*manifold),
{
    let mut i: usize = 0;
    while i < manifold.penetrations.len()
        invariant
            i <= manifold.penetrations.len(),
            forall|k: int| 0 <= k < i ==> manifold.penetrations@[k] <= 0,
        decreases manifold.penetrations.len() - i,
    {
        if manifold.penetrations[i] > 0 {
            return true;
        }
        i += 1;
    }
    false
}

/// Computes [`any_penetrating`].
pub fn is_any_penetrating(manifolds: &Vec<Manifold>) -> (b: bool)
    ensures
        b == any_penetrating(manifolds@),
{
    let mut i: usize = 0;
    while i < manifolds.len()
        invariant
            i <= manifolds.len(),
            forall|k: int| 0 <= k < i ==> !patch_penetrates(#[trigger] manifolds@[k]),
        decreases manifolds.len() - i,
    {
        if is_patch_penetrating(&manifolds[i]) {
            return true;
        }
        i += 1;
    }
    false
}

/// Computes [`pushes_up`].
pub fn is_pushing_up(manifold: &Manifold, side: PlatformSide, up: Vec2) -> (b: bool)
    ensures
        b == pushes_up(*manifold, side, up),
{
    let x: i64 = match side {
        PlatformSide::First => manifold.normal.x as i64,
        PlatformSide::Second => -(manifold.normal.x as i64),
    };
    let y: i64 = match side {
        PlatformSide::First => manifold.normal.y as i64,
        PlatformSide::Second => -(manifold.normal.y as i64),
    };
    let up_x: i64 = up.x as i64;
    let up_y: i64 = up.y as i64;
    assert(-0x4000_0000_0000_0000 <= x * up_x <= 0x4000_0000_0000_0000) by (nonlinear_arith)
        requires
            -0x8000_0000 <= x <= 0x8000_0000,
            -0x8000_0000 <= up_x <= 0x8000_0000,
    ;
    assert(-0x4000_0000_0000_0000 <= y * up_y <= 0x4000_0000_0000_0000) by (nonlinear_arith)
        requires
            -0x8000_0000 <= y <= 0x8000_0000,
            -0x8000_0000 <= up_y <= 0x8000_0000,
    ;
    let dot: i128 = (x * up_x) as i128 + (y * up_y) as i128;
    (x != 0 || y != 0) && dot >= 500_000
}

/// Computes [`all_push_up`].
pub fn are_all_pushing_up(manifolds: &Vec<Manifold>, side: PlatformSide, up: Vec2) -> (b: bool)
    ensures
        b == all_push_up(manifolds@, side, up),
{
    let mut i: usize = 0;
    while i < manifolds.len()
        invariant
            i <= manifolds.len(),
            forall|k: int| 0 <= k < i ==> pushes_up(#[trigger] manifolds@[k], side, up),
        decreases manifolds.len() - i,
    {
        if !is_pushing_up(&manifolds[i], side, up) {
            return false;
        }
        i += 1;
    }
    true
}

/// Decides what becomes of a contact between a platform and the body
/// `other`, see [`contact_decision`]. `up` is the platform's up direction,
/// per mille; `mode` is how the body deals with platforms, if it says.
pub fn modify_contacts(
    platform: &OneWayPlatform,
    other: u64,
    manifolds: &Vec<Manifold>,
    side: PlatformSide,
    up: Vec2,
    mode: Option<PassThroughOneWayPlatform>,
) -> (decision: ContactDecision)
    ensures
        decision == contact_decision(platform.0@.contains(other), manifolds@, side, up, mode),
{
    broadcast use vstd::std_specs::hash::group_hash_axioms;

    let passing = platform.0.contains(&other);
    if passing && is_any_penetrating(manifolds) {
        return ContactDecision { keep: false, remove: false, add: false };
    }
    let keep = match mode {
        Some(PassThroughOneWayPlatform::Never) => true,
        Some(PassThroughOneWayPlatform::Always) => false,
        _ => are_all_pushing_up(manifolds, side, up),
    };
    ContactDecision { keep, remove: passing, add: !keep }
}

} // verus!
