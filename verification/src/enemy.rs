//! Enemies: what they sense, how they score and run their behaviors, and
//! how hits stun and kill them.

use crate::animations::{clip_length, length_of, AnimationId, ClipLength};
use crate::character::{
    either, first_of, or_default, or_else, AttackDurations, GameLayer, MissingClip,
};
use crate::enemy_class::EnemyClassFile;
use crate::raycasts::{damaged_health, health_after, MeleeRaycastSpec};
use crate::timer::{Timer, TimerMode};
use crate::units::{
    abs_int, approach, approach_int, clamp_int, facing_sign, magnitude, max_speed_step, sign_of,
    speed_step, Vec2,
};
use std::collections::HashMap;
use vstd::prelude::*;

verus! {

// ───────── Tuning ─────────
/// Patrol speed.
pub const WALK: i32 = 50_000;

/// Chase speed.
pub const RUN: i32 = 200_000;

/// Horizontal acceleration, in whole units per second squared.
pub const ACCEL: u32 = 3000;

/// Distance up to which the player is noticed.
pub const AGGRO: i32 = 260_000;

/// Reach of the melee ray.
pub const RANGE: i32 = 46_000;

/// Horizontal distance to the target up to which a swing may begin.
pub const ATTACK_BAND_X: i32 = 70_000;

/// Distance to the target from which the chase stands still.
pub const CHASE_STOP: i32 = 54_000;

/// Speed above which the enemy counts as running.
pub const RUNNING_SPEED: i32 = 140_000;

/// Speed above which the enemy counts as moving.
pub const MOVING_SPEED: i32 = 6_000;

/// Horizontal distance to the target above which a swing is a walking one.
pub const NEAR_DX: i32 = 4_000;

/// Length of a swing whose clip length is unknown.
pub const SWING_DEFAULT_NS: u64 = 350_000_000;

/// Time after a completed swing before the next may begin.
pub const COOLDOWN_NS: u64 = 600_000_000;

/// Length of a stun whose clip length is unknown.
pub const STUN_DEFAULT_NS: u64 = 600_000_000;

/// Time from death to removal where the clip length is unknown.
pub const DIE_DEFAULT_NS: u64 = 1_200_000_000;

/// Horizontal knockback speed of a stun, in whole units per second.
pub const ENEMY_KNOCKBACK_SPEED: i32 = 260;

/// Upward knockback speed of a stun, in whole units per second.
pub const ENEMY_KNOCKBACK_POP: i32 = 300;

/// The largest share of a knockback that resistance can take away, per mille.
pub const MAX_KNOCKBACK_RESIST: i32 = 950;

/// Score from which a behavior is picked, per mille.
pub const PICK_THRESHOLD: u32 = 500;

// ───────── Data ─────────
/// The ends of the stretch an enemy patrols.
#[derive(Clone, Copy, Debug, PartialEq, Eq)]
pub struct PatrolBounds {
    pub left: i32,
    pub right: i32,
}

/// The way an enemy patrols.
#[derive(Clone, Copy, Debug, PartialEq, Eq, Structural)]
pub enum PatrolDir {
    Left,
    Right,
}

impl PatrolDir {
    /// `-1` for left and `1` for right.
    pub open spec fn sign(self) -> int {
        match self {
            PatrolDir::Left => -1,
            PatrolDir::Right => 1,
        }
    }
}

/// What an enemy knows of the player. The distance is kept as its square.
#[derive(Clone, Copy, Debug, PartialEq, Eq)]
pub struct EnemySenses {
    pub target: Option<u64>,
    pub target_pos: Vec2,
    /// The player's horizontal position less the enemy's.
    pub dx: i64,
    pub dist_sq: u128,
}

/// An enemy's health pool, in whole points.
#[derive(Clone, Copy, Debug, PartialEq, Eq)]
pub struct EnemyStats {
    pub health: u32,
    pub max_health: u32,
}

impl EnemyStats {
    /// A full pool of `max` points.
    pub fn new(max: u32) -> (stats: EnemyStats)
        ensures
            stats == (EnemyStats { health: max, max_health: max }),
    {
        EnemyStats { health: max, max_health: max }
    }
}

/// Where the attacker and the enemy stood at the last hit.
#[derive(Clone, Copy, Debug, PartialEq, Eq)]
pub struct EnemyLastHitDir {
    pub attacker: Vec2,
    pub target: Vec2,
}

impl EnemyLastHitDir {
    /// How far right of the attacker the enemy stood.
    pub open spec fn dx(self) -> int {
        self.target.x - self.attacker.x
    }
}

/// How long a stun lasts and how long a dead enemy stays, in nanoseconds.
#[derive(Clone, Copy, Debug, PartialEq, Eq)]
pub struct EnemyImpactDurations {
    pub stun: u64,
    pub die: u64,
}

/// An enemy.
#[derive(Clone, Copy, Debug, PartialEq, Eq)]
pub struct Enemy {
    pub patrol: PatrolBounds,
    pub dir: PatrolDir,
    pub senses: EnemySenses,
    pub stats: EnemyStats,
    pub impacts: EnemyImpactDurations,
    /// Swing lengths, once the clips are known.
    pub durations: Option<AttackDurations>,
    /// Defense of the class, once one is attached, per mille.
    pub defense: Option<i32>,
    /// Knockback resistance of the class, once one is attached, per mille.
    pub knockback_resist: Option<i32>,
    /// Runs while a swing is under way.
    pub attack_timer: Option<Timer>,
    /// Runs after a completed swing.
    pub attack_cooldown: Option<Timer>,
    /// Whether the melee ray is live.
    pub melee_active: bool,
    pub last_hit_dir: Option<EnemyLastHitDir>,
    /// Runs while the enemy is stunned.
    pub stun_timer: Option<Timer>,
    /// Runs once the enemy is dead.
    pub death_timer: Option<Timer>,
    /// Whether the enemy looks left.
    pub flip_x: bool,
}

/// What a change of health did to an enemy.
#[derive(Clone, Copy, Debug, PartialEq, Eq, Structural)]
pub enum Impact {
    /// Nothing: health did not drop, or the enemy was dead already.
    Unharmed,
    /// The enemy is stunned. `onset` tells a new stun from one prolonged.
    Stunned { onset: bool },
    /// The enemy died.
    Died,
}

impl Enemy {
    /// Health never exceeds its maximum.
    pub open spec fn wf(self) -> bool {
        self.stats.health <= self.stats.max_health
    }

    /// Whether the enemy is stunned.
    pub open spec fn stunned(self) -> bool {
        self.stun_timer is Some
    }

    /// Whether the enemy is dead.
    pub open spec fn dead(self) -> bool {
        self.death_timer is Some
    }

    /// Whether the enemy is stunned or dead and so cannot act.
    pub open spec fn disabled(self) -> bool {
        self.stunned() || self.dead()
    }

    /// Whether a cooldown is there and has not finished.
    pub open spec fn on_cooldown(self) -> bool {
        self.attack_cooldown matches Some(cooldown) && !cooldown.finished
    }

    /// Whether the enemy is stunned or dead.
    pub fn is_disabled(&self) -> (b: bool)
        ensures
            b == self.disabled(),
    {
        self.stun_timer.is_some() || self.death_timer.is_some()
    }

    /// Whether a cooldown is there and has not finished.
    pub fn is_on_cooldown(&self) -> (b: bool)
        ensures
            b == self.on_cooldown(),
    {
        match self.attack_cooldown {
            Some(cooldown) => !cooldown.finished(),
            None => false,
        }
    }

    // ───────── Scorers ─────────
    /// The score for having a target, per mille: all for an enemy that can
    /// act and has one, nothing otherwise.
    pub open spec fn has_target_score(self) -> u32 {
        if !self.disabled() && self.senses.target is Some {
            1000
        } else {
            0
        }
    }

    /// The score for attacking, per mille. Nothing for an enemy that cannot
    /// act; all while its swing is under way; nothing while it is on
    /// cooldown; else all when it has a target within [`ATTACK_BAND_X`]
    /// sideways.
    pub open spec fn attack_in_range_score(self) -> u32 {
        if self.disabled() {
            0
        } else if self.melee_active {
            1000
        } else if self.on_cooldown() {
            0
        } else if self.senses.target is Some && abs_int(self.senses.dx as int) <= ATTACK_BAND_X {
            1000
        } else {
            0
        }
    }

    /// Computes [`Enemy::has_target_score`].
    pub fn has_target_scorer(&self) -> (score: u32)
        ensures
            score == self.has_target_score(),
    {
        if !self.is_disabled() && self.senses.target.is_some() {
            1000
        } else {
            0
        }
    }

    /// Computes [`Enemy::attack_in_range_score`].
    pub fn attack_in_range_scorer(&self) -> (score: u32)
        ensures
            score == self.attack_in_range_score(),
    {
        if self.is_disabled() {
            0
        } else if self.melee_active {
            1000
        } else if self.is_on_cooldown() {
            0
        } else if self.senses.target.is_some() && self.senses.dx >= -(ATTACK_BAND_X as i64)
            && self.senses.dx <= ATTACK_BAND_X as i64 {
            1000
        } else {
            0
        }
    }

    // ───────── Perception ─────────
    /// What the enemy at `at` knows once it has looked for the player. With
    /// a player, everything is measured anew and the player is the target
    /// within [`AGGRO`]; without one, only the target goes.
    pub open spec fn sensed(self, player: Option<(u64, Vec2)>, at: Vec2) -> EnemySenses {
        match player {
            Some((entity, pos)) => {
                let dx = pos.x - at.x;
                let dy = pos.y - at.y;
                let dist_sq = dx * dx + dy * dy;
                EnemySenses {
                    target: if dist_sq <= AGGRO * AGGRO {
                        Some(entity)
                    } else {
                        None
                    },
                    target_pos: pos,
                    dx: dx as i64,
                    dist_sq: dist_sq as u128,
                }
            },
            None => EnemySenses { target: None, ..self.senses },
        }
    }

    /// Looks for the player, see [`Enemy::sensed`].
    pub fn sense_player(&mut self, player: Option<(u64, Vec2)>, at: Vec2)
        ensures
            *final(self) == (Enemy { senses: old(self).sensed(player, at), ..*old(self) }),
    {
        match player {
            Some((entity, pos)) => {
                let dx: i64 = pos.x as i64 - at.x as i64;
                let dy: i64 = pos.y as i64 - at.y as i64;
                assert(0 <= dx * dx <= 0x1_0000_0000 * 0x1_0000_0000) by (nonlinear_arith)
                    requires
                        -0x1_0000_0000 <= dx <= 0x1_0000_0000,
                ;
                assert(0 <= dy * dy <= 0x1_0000_0000 * 0x1_0000_0000) by (nonlinear_arith)
                    requires
                        -0x1_0000_0000 <= dy <= 0x1_0000_0000,
                ;
                let dist_sq: u128 = (dx as i128 * dx as i128 + dy as i128 * dy as i128) as u128;
                let reach: u128 = AGGRO as u128 * AGGRO as u128;
                self.senses = EnemySenses {
                    target: if dist_sq <= reach {
                        Some(entity)
                    } else {
                        None
                    },
                    target_pos: pos,
                    dx,
                    dist_sq,
                };
            },
            None => {
                self.senses.target = None;
            },
        }
    }

    /// Which way the enemy looks after this tick: `true` is left. An enemy
    /// that can act looks at its target if it has one and the way it moves
    /// otherwise, to the right when neither says otherwise.
    pub open spec fn faced(self, vx: i32) -> bool {
        if self.disabled() {
            self.flip_x
        } else if self.senses.target is Some {
            facing_sign(self.senses.dx as int) < 0
        } else {
            facing_sign(vx as int) < 0
        }
    }

    /// Turns the enemy, see [`Enemy::faced`].
    pub fn face_by_target_or_velocity(&mut self, vx: i32)
        ensures
            *final(self) == (Enemy { flip_x: old(self).faced(vx), ..*old(self) }),
    {
        if self.is_disabled() {
            return ;
        }
        let dir = if self.senses.target.is_some() {
            sign_of(self.senses.dx)
        } else {
            sign_of(vx as i64)
        };
        self.flip_x = dir < 0;
    }

    // ───────── Timers ─────────
    /// The swing timer and the cooldown advanced by `dt`.
    pub open spec fn attack_timers_ticked(self, dt: u64) -> Enemy {
        Enemy {
            attack_timer: match self.attack_timer {
                Some(timer) => Some(timer.ticked(dt)),
                None => None,
            },
            attack_cooldown: match self.attack_cooldown {
                Some(timer) => Some(timer.ticked(dt)),
                None => None,
            },
            ..self
        }
    }

    /// Advances the swing timer and the cooldown by `dt` nanoseconds.
    pub fn tick_enemy_attack_timers(&mut self, dt: u64)
        ensures
            *final(self) == old(self).attack_timers_ticked(dt),
    {
        match self.attack_timer {
            Some(timer) => {
                let mut timer = timer;
                timer.tick(dt);
                self.attack_timer = Some(timer);
            },
            None => {},
        }
        match self.attack_cooldown {
            Some(timer) => {
                let mut timer = timer;
                timer.tick(dt);
                self.attack_cooldown = Some(timer);
            },
            None => {},
        }
    }

    /// The enemy after `dt` more nanoseconds of stun or death: a stun that
    /// has run its time is over; a death timer just runs on.
    pub open spec fn impact_timers_ticked(self, dt: u64) -> Enemy {
        Enemy {
            stun_timer: match self.stun_timer {
                Some(timer) => if timer.ticked(dt).finished {
                    None
                } else {
                    Some(timer.ticked(dt))
                },
                None => None,
            },
            death_timer: match self.death_timer {
                Some(timer) => Some(timer.ticked(dt)),
                None => None,
            },
            ..self
        }
    }

    /// Advances the stun and death timers by `dt` nanoseconds. Returns
    /// whether the enemy is to be removed from the world: its death timer
    /// has run out.
    pub fn tick_enemy_impact_timers(&mut self, dt: u64) -> (despawn: bool)
        ensures
            *final(self) == old(self).impact_timers_ticked(dt),
            despawn == (final(self).death_timer matches Some(timer) && timer.finished),
    {
        match self.stun_timer {
            Some(timer) => {
                let mut timer = timer;
                timer.tick(dt);
                if timer.finished() {
                    self.stun_timer = None;
                } else {
                    self.stun_timer = Some(timer);
                }
            },
            None => {},
        }
        match self.death_timer {
            Some(timer) => {
                let mut timer = timer;
                timer.tick(dt);
                self.death_timer = Some(timer);
                timer.finished()
            },
            None => false,
        }
    }

    // ───────── Damage ─────────
    /// The enemy after a hit of `raw` damage. A dead enemy takes nothing.
    /// Otherwise health drops by the mitigated damage, not below zero, and
    /// where both places are known the enemy remembers where the attacker
    /// and itself stood.
    pub open spec fn hit(self, raw: i32, attacker: Option<Vec2>, at: Option<Vec2>) -> Enemy {
        if self.dead() {
            self
        } else {
            Enemy {
                stats: EnemyStats {
                    health: health_after(self.stats.health, raw, self.defense.unwrap_or(0)),
                    ..self.stats
                },
                last_hit_dir: if attacker is Some && at is Some {
                    Some(EnemyLastHitDir { attacker: attacker.unwrap(), target: at.unwrap() })
                } else {
                    self.last_hit_dir
                },
                ..self
            }
        }
    }

    /// Takes a hit, see [`Enemy::hit`].
    pub fn apply_melee_damage_to_enemies(
        &mut self,
        raw: i32,
        attacker: Option<Vec2>,
        at: Option<Vec2>,
    )
        ensures
            *final(self) == old(self).hit(raw, attacker, at),
            final(self).stats.health <= old(self).stats.health,
            old(self).wf() ==> final(self).wf(),
    {
        if self.death_timer.is_some() {
            return ;
        }
        let defense: i32 = match self.defense {
            Some(defense) => defense,
            None => 0,
        };
        self.stats.health = damaged_health(self.stats.health, raw, defense);
        match attacker {
            Some(attacker) => match at {
                Some(target) => {
                    self.last_hit_dir = Some(EnemyLastHitDir { attacker, target });
                },
                None => {},
            },
            None => {},
        }
    }

    /// What a change of health does, given the health seen on the tick
    /// before. Nothing if health has not dropped or the enemy is dead
    /// already. Else the melee ray goes dead; at no health the enemy dies
    /// and any stun ends; with health left it is stunned, the stun timer
    /// starting anew.
    pub open spec fn reacted(self, previous: u32) -> Enemy {
        if self.stats.health >= previous || self.dead() {
            self
        } else if self.stats.health == 0 {
            Enemy {
                melee_active: false,
                stun_timer: None,
                death_timer: Some(Timer::fresh(self.impacts.die, TimerMode::Once)),
                ..self
            }
        } else {
            Enemy {
                melee_active: false,
                stun_timer: Some(Timer::fresh(self.impacts.stun, TimerMode::Once)),
                ..self
            }
        }
    }

    /// What [`Enemy::reacted`] reports.
    pub open spec fn impact(self, previous: u32) -> Impact {
        if self.stats.health >= previous || self.dead() {
            Impact::Unharmed
        } else if self.stats.health == 0 {
            Impact::Died
        } else {
            Impact::Stunned { onset: !self.stunned() }
        }
    }

    /// The health recorded for `entity` on the tick before, or the present
    /// health where none is recorded.
    pub open spec fn previous_health(self, entity: u64, last: Map<u64, u32>) -> u32 {
        if last.contains_key(entity) {
            last[entity]
        } else {
            self.stats.health
        }
    }

    /// Reacts to a drop of health since the tick before and records the
    /// present health under `entity`.
    pub fn react_to_enemy_health_changes(
        &mut self,
        entity: u64,
        last: &mut HashMap<u64, u32>,
    ) -> (impact: Impact)
        ensures
            *final(self) == old(self).reacted(old(self).previous_health(entity, old(last)@)),
            impact == old(self).impact(old(self).previous_health(entity, old(last)@)),
            final(last)@ == old(last)@.insert(entity, old(self).stats.health),
            old(self).wf() ==> final(self).wf(),
    {
        broadcast use vstd::std_specs::hash::group_hash_axioms;

        let previous: u32 = match last.get(&entity) {
            Some(health) => *health,
            None => self.stats.health,
        };
        last.insert(entity, self.stats.health);
        if self.stats.health >= previous || self.death_timer.is_some() {
            return Impact::Unharmed;
        }
        self.melee_active = false;
        if self.stats.health == 0 {
            self.stun_timer = None;
            self.death_timer = Some(Timer::once(self.impacts.die));
            Impact::Died
        } else {
            let onset = self.stun_timer.is_none();
            self.stun_timer = Some(Timer::once(self.impacts.stun));
            Impact::Stunned { onset }
        }
    }

    // ───────── Knockback ─────────
    /// The share of a knockback that gets through, per mille.
    pub open spec fn knockback_share(self) -> int {
        1000 - clamp_int(self.knockback_resist.unwrap_or(0) as int, 0, MAX_KNOCKBACK_RESIST as int)
    }

    /// The side a knockback pushes to: `1` is right. Away from the attacker
    /// wherever it is known where both stood at the last hit and they did
    /// not stand at the same horizontal place; else against the way the
    /// enemy looks.
    pub open spec fn knockback_sign(self) -> int {
        match self.last_hit_dir {
            Some(dir) if dir.dx() != 0 => facing_sign(dir.dx()),
            _ => if self.flip_x {
                1
            } else {
                -1
            },
        }
    }

    /// The velocity a stun gives: sideways the knockback speed, upwards at
    /// least the pop, both lessened by resistance. An upward speed that is
    /// higher already stays.
    pub open spec fn knocked_back(self, velocity: Vec2) -> Vec2 {
        let pop = ENEMY_KNOCKBACK_POP * self.knockback_share();
        Vec2 {
            x: (self.knockback_sign() * ENEMY_KNOCKBACK_SPEED * self.knockback_share()) as i32,
            y: if velocity.y > pop {
                velocity.y
            } else {
                pop as i32
            },
        }
    }

    /// Computes [`Enemy::knocked_back`]. To be called once, at the onset of
    /// a stun.
    pub fn on_added_enemy_stunned_knockback(&self, velocity: Vec2) -> (next: Vec2)
        ensures
            next == self.knocked_back(velocity),
    {
        let away = match self.last_hit_dir {
            Some(dir) => if dir.target.x != dir.attacker.x {
                Some(sign_of(dir.target.x as i64 - dir.attacker.x as i64))
            } else {
                None
            },
            None => None,
        };
        let sign: i32 = match away {
            Some(sign) => sign,
            None => if self.flip_x {
                1
            } else {
                -1
            },
        };
        let resist: i32 = match self.knockback_resist {
            Some(resist) => if resist < 0 {
                0
            } else if resist > MAX_KNOCKBACK_RESIST {
                MAX_KNOCKBACK_RESIST
            } else {
                resist
            },
            None => 0,
        };
        let share: i32 = 1000 - resist;
        let pop: i32 = ENEMY_KNOCKBACK_POP * share;
        assert(sign * 260 * share == sign * (260 * share)) by (nonlinear_arith);
        Vec2 {
            x: sign * (ENEMY_KNOCKBACK_SPEED * share),
            y: if velocity.y > pop {
                velocity.y
            } else {
                pop
            },
        }
    }
}

/// Health stays within its pool: a hit never raises it, never takes it
/// below zero, and a hit that would take it below zero leaves exactly zero.
pub proof fn lemma_hit_keeps_health_in_pool(
    e: Enemy,
    raw: i32,
    attacker: Option<Vec2>,
    at: Option<Vec2>,
)
    requires
        e.wf(),
    ensures
        e.hit(raw, attacker, at).wf(),
        0 <= e.hit(raw, attacker, at).stats.health <= e.stats.health,
        e.hit(raw, attacker, at).stats.max_health == e.stats.max_health,
        !e.dead() && crate::raycasts::mitigated(raw, e.defense.unwrap_or(0)) >= e.stats.health
            ==> e.hit(raw, attacker, at).stats.health == 0,
{
}

/// Death comes exactly once. A living enemy whose health has dropped to
/// zero dies, and does not get stunned; a dead enemy takes no hit and no
/// drop of health does anything to it any more.
pub proof fn lemma_death_exactly_once(
    e: Enemy,
    previous: u32,
    raw: i32,
    attacker: Option<Vec2>,
    at: Option<Vec2>,
)
    ensures
        !e.dead() && e.stats.health == 0 && previous > 0 ==> e.impact(previous) == Impact::Died
            && e.reacted(previous).dead() && !e.reacted(previous).stunned(),
        !e.dead() && 0 < e.stats.health < previous ==> e.impact(previous) == (Impact::Stunned {
            onset: !e.stunned(),
        }) && e.reacted(previous).stunned() && !e.reacted(previous).dead(),
        e.dead() ==> e.hit(raw, attacker, at) == e && e.reacted(previous) == e && e.impact(
            previous,
        ) == Impact::Unharmed,
        e.reacted(previous).dead() ==> e.reacted(previous).reacted(previous) == e.reacted(
            previous,
        ),
{
}

/// A knockback pushes away from the attacker: wherever it is known where
/// both stood at the last hit, the enemy is pushed right if it stood right
/// of the attacker and left if it stood left, at the knockback speed
/// lessened by resistance, whatever its speed was before.
pub proof fn lemma_knockback_points_away(e: Enemy, velocity: Vec2)
    requires
        e.last_hit_dir is Some,
        e.last_hit_dir.unwrap().dx() != 0,
    ensures
        e.last_hit_dir.unwrap().dx() > 0 ==> e.knocked_back(velocity).x == ENEMY_KNOCKBACK_SPEED
            * e.knockback_share() && e.knocked_back(velocity).x > 0,
        e.last_hit_dir.unwrap().dx() < 0 ==> e.knocked_back(velocity).x == -ENEMY_KNOCKBACK_SPEED
            * e.knockback_share() && e.knocked_back(velocity).x < 0,
{
    let share = e.knockback_share();
    assert(1 * ENEMY_KNOCKBACK_SPEED * share == 260 * share);
    assert(-1 * ENEMY_KNOCKBACK_SPEED * share == -260 * share);
}

// ───────── Behaviors ─────────
/// What an enemy can be busy with.
#[derive(Clone, Copy, Debug, PartialEq, Eq, Structural)]
pub enum Behavior {
    Attack,
    Chase,
    Patrol,
}

/// Where a behavior stands. It is asked for, runs, and ends in success or
/// failure; it can be cancelled while it runs.
#[derive(Clone, Copy, Debug, PartialEq, Eq, Structural)]
pub enum ActionState {
    Init,
    Requested,
    Executing,
    Cancelled,
    Success,
    Failure,
}

/// The physical state of a body.
#[derive(Clone, Copy, Debug, PartialEq, Eq)]
pub struct Body {
    pub position: Vec2,
    pub velocity: Vec2,
    /// Whether the body touches anything.
    pub grounded: bool,
}

/// What one tick of a behavior leaves: where the behavior stands and the
/// horizontal speed to set.
#[derive(Clone, Copy, Debug, PartialEq, Eq)]
pub struct Acted {
    pub state: ActionState,
    pub vx: i32,
}

/// The behavior to follow: the first of attack and chase whose score reaches
/// [`PICK_THRESHOLD`], else patrol.
pub open spec fn picked(attack_score: u32, target_score: u32) -> Behavior {
    if attack_score >= PICK_THRESHOLD {
        Behavior::Attack
    } else if target_score >= PICK_THRESHOLD {
        Behavior::Chase
    } else {
        Behavior::Patrol
    }
}

/// Computes [`picked`].
pub fn pick_behavior(attack_score: u32, target_score: u32) -> (behavior: Behavior)
    ensures
        behavior == picked(attack_score, target_score),
{
    if attack_score >= PICK_THRESHOLD {
        Behavior::Attack
    } else if target_score >= PICK_THRESHOLD {
        Behavior::Chase
    } else {
        Behavior::Patrol
    }
}

impl ActionState {
    /// Where a behavior stands after a tick on which it has nothing to do
    /// but follow its course: asked for, it starts to run; cancelled, it
    /// fails; ended, it is asked for again. While it runs it is left to the
    /// behavior itself.
    pub open spec fn coursed(self) -> ActionState {
        match self {
            ActionState::Init | ActionState::Requested => ActionState::Executing,
            ActionState::Executing => ActionState::Executing,
            ActionState::Cancelled => ActionState::Failure,
            ActionState::Success | ActionState::Failure => ActionState::Requested,
        }
    }
}

impl Enemy {
    /// The behavior the enemy's scores pick.
    pub fn think(&self) -> (behavior: Behavior)
        ensures
            behavior == picked(self.attack_in_range_score(), self.has_target_score()),
    {
        pick_behavior(self.attack_in_range_scorer(), self.has_target_scorer())
    }

    // ───────── Patrol ─────────
    /// The way to patrol from `x`: right from the left end or beyond, left
    /// from the right end or beyond, the right end deciding where both hold.
    pub open spec fn patrol_dir(self, x: i32) -> PatrolDir {
        if x >= self.patrol.right {
            PatrolDir::Left
        } else if x <= self.patrol.left {
            PatrolDir::Right
        } else {
            self.dir
        }
    }

    /// Whether a running behavior moves the enemy on this tick.
    pub open spec fn moves(self, state: ActionState) -> bool {
        state is Executing && !self.disabled()
    }

    /// The enemy after a tick of patrol: it turns at the ends of its
    /// stretch.
    pub open spec fn patrolled(self, state: ActionState, x: i32) -> Enemy {
        if self.moves(state) {
            Enemy { dir: self.patrol_dir(x), ..self }
        } else {
            self
        }
    }

    /// What a tick of patrol leaves: the speed moved towards [`WALK`] in
    /// the way of the patrol.
    pub open spec fn patrol_acted(self, state: ActionState, x: i32, vx: i32, dt: u64) -> Acted {
        Acted {
            state: state.coursed(),
            vx: if self.moves(state) {
                approach_int(vx as int, self.patrol_dir(x).sign() * WALK, speed_step(ACCEL, dt))
                    as i32
            } else {
                vx
            },
        }
    }

    /// Runs one tick of patrol for an enemy at `x` moving at `vx`.
    pub fn patrol_action(&mut self, state: ActionState, x: i32, vx: i32, dt: u64) -> (acted: Acted)
        ensures
            *final(self) == old(self).patrolled(state, x),
            acted == old(self).patrol_acted(state, x, vx, dt),
    {
        match state {
            ActionState::Init | ActionState::Requested => Acted {
                state: ActionState::Executing,
                vx,
            },
            ActionState::Executing => {
                if self.is_disabled() {
                    return Acted { state, vx };
                }
                if x <= self.patrol.left {
                    self.dir = PatrolDir::Right;
                }
                if x >= self.patrol.right {
                    self.dir = PatrolDir::Left;
                }
                let target: i32 = match self.dir {
                    PatrolDir::Left => -WALK,
                    PatrolDir::Right => WALK,
                };
                Acted { state, vx: approach(vx, target, max_speed_step(ACCEL, dt)) }
            },
            ActionState::Cancelled => Acted { state: ActionState::Failure, vx },
            ActionState::Success | ActionState::Failure => Acted {
                state: ActionState::Requested,
                vx,
            },
        }
    }

    // ───────── Chase ─────────
    /// The speed the chase asks for at `x`: none within [`CHASE_STOP`] of
    /// the target, else [`RUN`] towards where the target was seen.
    pub open spec fn chase_speed(self, x: i32) -> int {
        if self.senses.dist_sq <= CHASE_STOP * CHASE_STOP {
            0
        } else {
            facing_sign(self.senses.target_pos.x - x) * RUN
        }
    }

    /// What a tick of chase leaves. A running chase without a target has
    /// succeeded; with one, the speed moves towards the chase speed.
    pub open spec fn chase_acted(self, state: ActionState, x: i32, vx: i32, dt: u64) -> Acted {
        if self.moves(state) {
            if self.senses.target is Some {
                Acted {
                    state: ActionState::Executing,
                    vx: approach_int(vx as int, self.chase_speed(x), speed_step(ACCEL, dt)) as i32,
                }
            } else {
                Acted { state: ActionState::Success, vx }
            }
        } else {
            Acted { state: state.coursed(), vx }
        }
    }

    /// Runs one tick of chase for an enemy at `x` moving at `vx`.
    pub fn chase_action(&self, state: ActionState, x: i32, vx: i32, dt: u64) -> (acted: Acted)
        ensures
            acted == self.chase_acted(state, x, vx, dt),
    {
        match state {
            ActionState::Init | ActionState::Requested => Acted {
                state: ActionState::Executing,
                vx,
            },
            ActionState::Executing => {
                if self.is_disabled() {
                    return Acted { state, vx };
                }
                if self.senses.target.is_none() {
                    return Acted { state: ActionState::Success, vx };
                }
                let stop: u128 = CHASE_STOP as u128 * CHASE_STOP as u128;
                let desired: i32 = if self.senses.dist_sq <= stop {
                    0
                } else if self.senses.target_pos.x as i64 - x as i64 >= 0 {
                    RUN
                } else {
                    -RUN
                };
                Acted { state, vx: approach(vx, desired, max_speed_step(ACCEL, dt)) }
            },
            ActionState::Cancelled => Acted { state: ActionState::Failure, vx },
            ActionState::Success | ActionState::Failure => Acted {
                state: ActionState::Requested,
                vx,
            },
        }
    }

    // ───────── Attack ─────────
    /// How long the swing lasts that begins now: the length of the clip
    /// that will show, or [`SWING_DEFAULT_NS`] while the lengths are
    /// unknown. In the air it is the rising or the falling swing; on the
    /// ground the running swing above [`RUNNING_SPEED`], the walking swing
    /// above [`MOVING_SPEED`] or with the target more than [`NEAR_DX`] off
    /// sideways, and the standing swing otherwise.
    pub open spec fn swing_length(self, body: Body) -> u64 {
        let speed = abs_int(body.velocity.x as int);
        match self.durations {
            None => SWING_DEFAULT_NS,
            Some(d) => if !body.grounded {
                if body.velocity.y > 0 {
                    d.jump
                } else {
                    d.fall
                }
            } else if speed > RUNNING_SPEED {
                d.run
            } else if speed > MOVING_SPEED || abs_int(self.senses.dx as int) > NEAR_DX {
                d.walk
            } else {
                d.idle
            },
        }
    }

    /// Whether a swing may begin: the enemy is neither on cooldown nor
    /// swinging already.
    pub open spec fn may_swing(self) -> bool {
        !self.on_cooldown() && self.attack_timer is None
    }

    /// Whether the swing timer is there and has run out.
    pub open spec fn swing_done(self) -> bool {
        self.attack_timer matches Some(timer) && timer.finished
    }

    /// The enemy with its swing taken away: the ray dead and the timer gone.
    pub open spec fn without_swing(self) -> Enemy {
        Enemy { melee_active: false, attack_timer: None, ..self }
    }

    /// The enemy after a tick of attack.
    ///
    /// Asked for: an enemy that can act and may swing begins one, its ray
    /// live and its timer set to the swing's length. Running: a stun or a
    /// death takes the swing away; a swing whose timer has run out ends and
    /// the cooldown of [`COOLDOWN_NS`] begins. Cancelled: the swing is
    /// taken away. Neither a stun, a death nor a cancel starts a cooldown.
    pub open spec fn attacked(self, state: ActionState, body: Body) -> Enemy {
        match state {
            ActionState::Init | ActionState::Requested => if !self.disabled() && self.may_swing() {
                Enemy {
                    melee_active: true,
                    attack_timer: Some(Timer::fresh(self.swing_length(body), TimerMode::Once)),
                    ..self
                }
            } else {
                self
            },
            ActionState::Executing => if self.disabled() {
                self.without_swing()
            } else if self.swing_done() {
                Enemy {
                    attack_cooldown: Some(Timer::fresh(COOLDOWN_NS, TimerMode::Once)),
                    ..self.without_swing()
                }
            } else {
                self
            },
            ActionState::Cancelled => self.without_swing(),
            ActionState::Success | ActionState::Failure => self,
        }
    }

    /// What a tick of attack leaves. A swing holds the enemy still.
    pub open spec fn attack_acted(self, state: ActionState, body: Body) -> Acted {
        match state {
            ActionState::Init | ActionState::Requested => if !self.disabled() && self.may_swing() {
                Acted { state: ActionState::Executing, vx: 0 }
            } else {
                Acted { state: ActionState::Failure, vx: body.velocity.x }
            },
            ActionState::Executing => if self.disabled() {
                Acted { state: ActionState::Failure, vx: 0 }
            } else if self.swing_done() {
                Acted { state: ActionState::Success, vx: 0 }
            } else {
                Acted { state: ActionState::Executing, vx: 0 }
            },
            ActionState::Cancelled => Acted { state: ActionState::Failure, vx: body.velocity.x },
            ActionState::Success | ActionState::Failure => Acted {
                state: ActionState::Requested,
                vx: body.velocity.x,
            },
        }
    }

    /// Computes [`Enemy::swing_length`].
    pub fn swing_length_for(&self, body: &Body) -> (nanos: u64)
        ensures
            nanos == self.swing_length(*body),
    {
        let speed = magnitude(body.velocity.x);
        match self.durations {
            None => SWING_DEFAULT_NS,
            Some(d) => if !body.grounded {
                if body.velocity.y > 0 {
                    d.jump
                } else {
                    d.fall
                }
            } else if speed > RUNNING_SPEED as i64 {
                d.run
            } else if speed > MOVING_SPEED as i64 || self.senses.dx > NEAR_DX as i64
                || self.senses.dx < -(NEAR_DX as i64) {
                d.walk
            } else {
                d.idle
            },
        }
    }

    /// Runs one tick of attack.
    pub fn attack_action(&mut self, state: ActionState, body: &Body) -> (acted: Acted)
        ensures
            *final(self) == old(self).attacked(state, *body),
            acted == old(self).attack_acted(state, *body),
    {
        let vx = body.velocity.x;
        match state {
            ActionState::Init | ActionState::Requested => {
                if self.is_disabled() {
                    return Acted { state: ActionState::Failure, vx };
                }
                let swinging = self.attack_timer.is_some();
                let on_cooldown = self.is_on_cooldown();
                if !on_cooldown && !swinging {
                    let length = self.swing_length_for(body);
                    self.melee_active = true;
                    self.attack_timer = Some(Timer::once(length));
                    Acted { state: ActionState::Executing, vx: 0 }
                } else {
                    Acted { state: ActionState::Failure, vx }
                }
            },
            ActionState::Executing => {
                if self.is_disabled() {
                    self.melee_active = false;
                    self.attack_timer = None;
                    return Acted { state: ActionState::Failure, vx: 0 };
                }
                let done = match self.attack_timer {
                    Some(timer) => timer.finished(),
                    None => false,
                };
                if done {
                    self.melee_active = false;
                    self.attack_timer = None;
                    self.attack_cooldown = Some(Timer::once(COOLDOWN_NS));
                    Acted { state: ActionState::Success, vx: 0 }
                } else {
                    Acted { state, vx: 0 }
                }
            },
            ActionState::Cancelled => {
                self.melee_active = false;
                self.attack_timer = None;
                Acted { state: ActionState::Failure, vx }
            },
            ActionState::Success | ActionState::Failure => Acted {
                state: ActionState::Requested,
                vx,
            },
        }
    }
}

/// Which behavior an enemy follows and where that behavior stands.
#[derive(Clone, Copy, Debug, PartialEq, Eq)]
pub struct Thinker {
    pub behavior: Behavior,
    pub state: ActionState,
}

impl Thinker {
    /// A thinker that has yet to start its first behavior, a patrol.
    pub open spec fn initial() -> Thinker {
        Thinker { behavior: Behavior::Patrol, state: ActionState::Init }
    }

    /// Computes [`Thinker::initial`].
    pub fn new() -> (thinker: Thinker)
        ensures
            thinker == Thinker::initial(),
    {
        Thinker { behavior: Behavior::Patrol, state: ActionState::Init }
    }
}

impl Enemy {
    /// The enemy after one tick of the given behavior.
    pub open spec fn behaved(self, behavior: Behavior, state: ActionState, body: Body) -> Enemy {
        match behavior {
            Behavior::Attack => self.attacked(state, body),
            Behavior::Chase => self,
            Behavior::Patrol => self.patrolled(state, body.position.x),
        }
    }

    /// What one tick of the given behavior leaves.
    pub open spec fn behavior_acted(
        self,
        behavior: Behavior,
        state: ActionState,
        body: Body,
        dt: u64,
    ) -> Acted {
        match behavior {
            Behavior::Attack => self.attack_acted(state, body),
            Behavior::Chase => self.chase_acted(state, body.position.x, body.velocity.x, dt),
            Behavior::Patrol => self.patrol_acted(state, body.position.x, body.velocity.x, dt),
        }
    }

    /// The behavior the enemy's scores pick.
    pub open spec fn choice(self) -> Behavior {
        picked(self.attack_in_range_score(), self.has_target_score())
    }

    /// The enemy once a behavior that is no longer the one picked has been
    /// cancelled.
    pub open spec fn switched(self, thinker: Thinker, body: Body) -> Enemy {
        if self.choice() == thinker.behavior {
            self
        } else {
            self.behaved(thinker.behavior, ActionState::Cancelled, body)
        }
    }

    /// The behavior to run this tick and where it stands: the one followed
    /// if it is still the one picked, else the one picked, newly asked for.
    pub open spec fn turned(self, thinker: Thinker) -> Thinker {
        if self.choice() == thinker.behavior {
            thinker
        } else {
            Thinker { behavior: self.choice(), state: ActionState::Requested }
        }
    }

    /// The enemy after one tick of thinking and acting. The scores pick a
    /// behavior; a behavior that is no longer the one picked is cancelled;
    /// then the behavior to follow runs one tick.
    pub open spec fn thought(self, thinker: Thinker, body: Body) -> Enemy {
        let run = self.turned(thinker);
        self.switched(thinker, body).behaved(run.behavior, run.state, body)
    }

    /// What the tick of thinking and acting leaves.
    pub open spec fn thought_acted(self, thinker: Thinker, body: Body, dt: u64) -> Acted {
        let run = self.turned(thinker);
        self.switched(thinker, body).behavior_acted(run.behavior, run.state, body, dt)
    }

    /// Runs one tick of the given behavior.
    pub fn act(&mut self, behavior: Behavior, state: ActionState, body: &Body, dt: u64) -> (acted:
        Acted)
        ensures
            *final(self) == old(self).behaved(behavior, state, *body),
            acted == old(self).behavior_acted(behavior, state, *body, dt),
    {
        match behavior {
            Behavior::Attack => self.attack_action(state, body),
            Behavior::Chase => self.chase_action(state, body.position.x, body.velocity.x, dt),
            Behavior::Patrol => self.patrol_action(state, body.position.x, body.velocity.x, dt),
        }
    }

    /// Picks a behavior and runs it for one tick, see [`Enemy::thought`].
    /// Returns the horizontal speed to set.
    pub fn think_and_act(&mut self, thinker: &mut Thinker, body: &Body, dt: u64) -> (vx: i32)
        ensures
            *final(self) == old(self).thought(*old(thinker), *body),
            final(thinker).behavior == old(self).choice(),
            final(thinker).state == old(self).thought_acted(*old(thinker), *body, dt).state,
            vx == old(self).thought_acted(*old(thinker), *body, dt).vx,
    {
        let choice = self.think();
        if choice != thinker.behavior {
            self.act(thinker.behavior, ActionState::Cancelled, body, dt);
            thinker.behavior = choice;
            thinker.state = ActionState::Requested;
        }
        let acted = self.act(thinker.behavior, thinker.state, body, dt);
        thinker.state = acted.state;
        acted.vx
    }
}

/// A swing is refused to an enemy that is on cooldown, swinging already,
/// stunned or dead: asking for one changes nothing and fails.
pub proof fn lemma_enemy_swing_refused(e: Enemy, state: ActionState, body: Body)
    requires
        state is Init || state is Requested,
        e.on_cooldown() || e.attack_timer is Some || e.disabled(),
    ensures
        e.attacked(state, body) == e,
        e.attack_acted(state, body).state == ActionState::Failure,
{
}

/// An enemy's swing ends in exactly one of two ways. Completed: its timer
/// had run out, the behavior succeeds and the cooldown starts at
/// [`COOLDOWN_NS`]. Cut short by a stun, a death or a cancel: the behavior
/// fails and the cooldown is left as it was.
pub proof fn lemma_enemy_swing_ends_one_way(e: Enemy, state: ActionState, body: Body)
    requires
        e.attack_timer is Some,
        e.attacked(state, body).attack_timer is None,
    ensures
        ({
            let after = e.attacked(state, body);
            let acted = e.attack_acted(state, body);
            let completed = state is Executing && !e.disabled() && e.swing_done();
            &&& !after.melee_active
            &&& completed ==> acted.state == ActionState::Success && after.attack_cooldown == Some(
                Timer::fresh(COOLDOWN_NS, TimerMode::Once),
            )
            &&& !completed ==> acted.state == ActionState::Failure && after.attack_cooldown
                == e.attack_cooldown
        }),
{
}

// ───────── Animation ─────────
/// An enemy's clips. The idle clip and the standing swing must exist; any
/// other may be missing and is then stood in for.
#[derive(Clone, Copy, Debug, PartialEq, Eq)]
pub struct EnemyAnimClips {
    pub idle: AnimationId,
    pub walk: Option<AnimationId>,
    pub run: Option<AnimationId>,
    pub jump: Option<AnimationId>,
    pub fall: Option<AnimationId>,
    pub attack_idle: AnimationId,
    pub attack_walk: Option<AnimationId>,
    pub attack_run: Option<AnimationId>,
    pub attack_jump: Option<AnimationId>,
    pub attack_fall: Option<AnimationId>,
    pub stunned: Option<AnimationId>,
    pub die: Option<AnimationId>,
}

/// The animation name of the clip for a stunned actor.
pub open spec fn stunned_clip_name() -> Seq<char> {
    "player_combat:stunned"@
}

/// The name under which the clip for a stunned actor may stand instead.
pub open spec fn stunned_clip_alt_name() -> Seq<char> {
    "player:stunned"@
}

/// The animation name of the clip for a dying actor.
pub open spec fn die_clip_name() -> Seq<char> {
    "player:die"@
}

/// The animation name of the clip for a stunned actor.
pub fn stunned_clip() -> (name: &'static str)
    ensures
        name@ == stunned_clip_name(),
{
    "player_combat:stunned"
}

/// The name under which the clip for a stunned actor may stand instead.
pub fn stunned_clip_alt() -> (name: &'static str)
    ensures
        name@ == stunned_clip_alt_name(),
{
    "player:stunned"
}

/// The animation name of the clip for a dying actor.
pub fn die_clip() -> (name: &'static str)
    ensures
        name@ == die_clip_name(),
{
    "player:die"
}

impl EnemyImpactDurations {
    /// The lengths used until the clips are known.
    pub open spec fn standard_spec() -> EnemyImpactDurations {
        EnemyImpactDurations { stun: STUN_DEFAULT_NS, die: DIE_DEFAULT_NS }
    }

    /// The lengths read from a table of clip lengths: the stun from the
    /// stunned clip under either of its names, the death from the dying
    /// clip, and the standard lengths where a clip is not in the table.
    pub open spec fn from_table_spec(table: Seq<ClipLength>) -> EnemyImpactDurations {
        EnemyImpactDurations {
            stun: match length_of(table, stunned_clip_name()) {
                Some(nanos) => nanos,
                None => length_of(table, stunned_clip_alt_name()).unwrap_or(STUN_DEFAULT_NS),
            },
            die: length_of(table, die_clip_name()).unwrap_or(DIE_DEFAULT_NS),
        }
    }

    /// The lengths used until the clips are known.
    pub fn standard() -> (d: EnemyImpactDurations)
        ensures
            d == EnemyImpactDurations::standard_spec(),
    {
        EnemyImpactDurations { stun: STUN_DEFAULT_NS, die: DIE_DEFAULT_NS }
    }

    /// Computes [`EnemyImpactDurations::from_table_spec`].
    pub fn from_table(table: &Vec<ClipLength>) -> (d: EnemyImpactDurations)
        ensures
            d == EnemyImpactDurations::from_table_spec(table@),
    {
        let stun: u64 = match clip_length(table, stunned_clip()) {
            Some(nanos) => nanos,
            None => match clip_length(table, stunned_clip_alt()) {
                Some(nanos) => nanos,
                None => STUN_DEFAULT_NS,
            },
        };
        let die: u64 = match clip_length(table, die_clip()) {
            Some(nanos) => nanos,
            None => DIE_DEFAULT_NS,
        };
        EnemyImpactDurations { stun, die }
    }
}

/// What the animation library holds under the name of each of an enemy's
/// clips.
#[derive(Clone, Copy, Debug, PartialEq, Eq)]
pub struct EnemyClipLookup {
    pub idle: Option<AnimationId>,
    pub walk: Option<AnimationId>,
    pub run: Option<AnimationId>,
    pub jump: Option<AnimationId>,
    pub fall: Option<AnimationId>,
    pub attack_idle: Option<AnimationId>,
    pub attack_walk: Option<AnimationId>,
    pub attack_run: Option<AnimationId>,
    pub attack_jump: Option<AnimationId>,
    pub attack_fall: Option<AnimationId>,
    pub stunned: Option<AnimationId>,
    pub die: Option<AnimationId>,
}

impl EnemyClipLookup {
    /// The clips put together. The idle clip and the standing swing must
    /// have been found, and a missing idle clip is told first; any other
    /// clip may be missing.
    pub open spec fn assembled(self) -> Result<EnemyAnimClips, MissingClip> {
        if self.idle is None {
            Err(MissingClip::Idle)
        } else if self.attack_idle is None {
            Err(MissingClip::AttackIdle)
        } else {
            Ok(
                EnemyAnimClips {
                    idle: self.idle.unwrap(),
                    walk: self.walk,
                    run: self.run,
                    jump: self.jump,
                    fall: self.fall,
                    attack_idle: self.attack_idle.unwrap(),
                    attack_walk: self.attack_walk,
                    attack_run: self.attack_run,
                    attack_jump: self.attack_jump,
                    attack_fall: self.attack_fall,
                    stunned: self.stunned,
                    die: self.die,
                },
            )
        }
    }

    /// Computes [`EnemyClipLookup::assembled`].
    pub fn assemble(&self) -> (clips: Result<EnemyAnimClips, MissingClip>)
        ensures
            clips == self.assembled(),
    {
        EnemyAnimClips::assemble(
            self.idle,
            self.walk,
            self.run,
            self.jump,
            self.fall,
            self.attack_idle,
            self.attack_walk,
            self.attack_run,
            self.attack_jump,
            self.attack_fall,
            self.stunned,
            self.die,
        )
    }
}

/// The clips attached to an enemy and the clip it shows from the start.
#[derive(Clone, Copy, Debug, PartialEq, Eq)]
pub struct EnemyShown {
    pub clips: EnemyAnimClips,
    pub current: AnimationId,
}

impl EnemyAnimClips {
    /// The clip of a swing by an enemy in the given physical state.
    pub open spec fn swing_clip(self, body: Body) -> AnimationId {
        let speed = abs_int(body.velocity.x as int);
        if !body.grounded {
            if body.velocity.y <= 0 {
                or_else(either(self.attack_fall, self.attack_jump), self.attack_idle)
            } else {
                or_else(either(self.attack_jump, self.attack_fall), self.attack_idle)
            }
        } else if speed > RUNNING_SPEED {
            or_else(either(self.attack_run, self.attack_walk), self.attack_idle)
        } else if speed > MOVING_SPEED {
            or_else(self.attack_walk, self.attack_idle)
        } else {
            self.attack_idle
        }
    }

    /// The clip of an enemy that moves without a swing.
    pub open spec fn moving_clip(self, body: Body) -> AnimationId {
        let speed = abs_int(body.velocity.x as int);
        if !body.grounded {
            if body.velocity.y > 0 {
                or_else(either(self.jump, self.fall), self.idle)
            } else {
                or_else(self.fall, self.idle)
            }
        } else if speed > RUNNING_SPEED {
            or_else(either(self.run, self.walk), self.idle)
        } else if speed > MOVING_SPEED {
            or_else(self.walk, self.idle)
        } else {
            self.idle
        }
    }

    /// The clip to show: death comes before a stun, a stun before a swing,
    /// a swing before moving.
    pub open spec fn wanted(self, enemy: Enemy, body: Body) -> AnimationId {
        if enemy.dead() {
            or_else(self.die, self.idle)
        } else if enemy.stunned() {
            or_else(self.stunned, self.idle)
        } else if enemy.melee_active {
            self.swing_clip(body)
        } else {
            self.moving_clip(body)
        }
    }

    /// Puts the clips together from what the animation library holds under
    /// each name. Fails when the idle clip or the standing swing is missing,
    /// the idle clip first.
    pub fn assemble(
        idle: Option<AnimationId>,
        walk: Option<AnimationId>,
        run: Option<AnimationId>,
        jump: Option<AnimationId>,
        fall: Option<AnimationId>,
        attack_idle: Option<AnimationId>,
        attack_walk: Option<AnimationId>,
        attack_run: Option<AnimationId>,
        attack_jump: Option<AnimationId>,
        attack_fall: Option<AnimationId>,
        stunned: Option<AnimationId>,
        die: Option<AnimationId>,
    ) -> (clips: Result<EnemyAnimClips, MissingClip>)
        ensures
            clips == (EnemyClipLookup {
                idle,
                walk,
                run,
                jump,
                fall,
                attack_idle,
                attack_walk,
                attack_run,
                attack_jump,
                attack_fall,
                stunned,
                die,
            }).assembled(),
    {
        match idle {
            None => Err(MissingClip::Idle),
            Some(idle) => match attack_idle {
                None => Err(MissingClip::AttackIdle),
                Some(attack_idle) => Ok(
                    EnemyAnimClips {
                        idle,
                        walk,
                        run,
                        jump,
                        fall,
                        attack_idle,
                        attack_walk,
                        attack_run,
                        attack_jump,
                        attack_fall,
                        stunned,
                        die,
                    },
                ),
            },
        }
    }

    /// Computes [`EnemyAnimClips::wanted`].
    pub fn select(&self, enemy: &Enemy, body: &Body) -> (id: AnimationId)
        ensures
            id == self.wanted(*enemy, *body),
    {
        let speed = magnitude(body.velocity.x);
        let in_air = !body.grounded;
        let running = speed > RUNNING_SPEED as i64;
        let moving = speed > MOVING_SPEED as i64;
        if enemy.death_timer.is_some() {
            or_default(self.die, self.idle)
        } else if enemy.stun_timer.is_some() {
            or_default(self.stunned, self.idle)
        } else if enemy.melee_active {
            if in_air {
                if body.velocity.y <= 0 {
                    or_default(first_of(self.attack_fall, self.attack_jump), self.attack_idle)
                } else {
                    or_default(first_of(self.attack_jump, self.attack_fall), self.attack_idle)
                }
            } else if running {
                or_default(first_of(self.attack_run, self.attack_walk), self.attack_idle)
            } else if moving {
                or_default(self.attack_walk, self.attack_idle)
            } else {
                self.attack_idle
            }
        } else if in_air {
            if body.velocity.y > 0 {
                or_default(first_of(self.jump, self.fall), self.idle)
            } else {
                or_default(self.fall, self.idle)
            }
        } else if running {
            or_default(first_of(self.run, self.walk), self.idle)
        } else if moving {
            or_default(self.walk, self.idle)
        } else {
            self.idle
        }
    }
}

/// The clip to switch to, if the one wanted is not the one playing.
pub fn drive_enemy_animation(
    clips: &EnemyAnimClips,
    current: AnimationId,
    enemy: &Enemy,
    body: &Body,
) -> (switch: Option<AnimationId>)
    ensures
        switch == (if clips.wanted(*enemy, *body) == current {
            None
        } else {
            Some(clips.wanted(*enemy, *body))
        }),
{
    let id = clips.select(enemy, body);
    if id == current {
        None
    } else {
        Some(id)
    }
}

// ───────── Spawning ─────────
/// The melee ray of an enemy: one hit of twenty points per swing, on the
/// player's layer, within [`RANGE`].
pub open spec fn enemy_ray() -> MeleeRaycastSpec {
    MeleeRaycastSpec {
        offset: Vec2 { x: 16_000, y: 8_000 },
        length: RANGE,
        max_hits: 1,
        damage: 20,
        filter: GameLayer::Player.bits(),
        solid: false,
        once_per_swing: true,
    }
}

/// Computes [`enemy_ray`].
pub fn enemy_melee_spec() -> (spec: MeleeRaycastSpec)
    ensures
        spec == enemy_ray(),
{
    MeleeRaycastSpec {
        offset: Vec2 { x: 16_000, y: 8_000 },
        length: RANGE,
        max_hits: 1,
        damage: 20,
        filter: GameLayer::Player.to_bits(),
        solid: false,
        once_per_swing: true,
    }
}

impl Enemy {
    /// An enemy as it is spawned to patrol between `left` and `right`:
    /// heading right, with forty points of health, knowing nothing of the
    /// player, and neither swinging, stunned nor dead.
    pub open spec fn spawned(left: i32, right: i32) -> Enemy {
        Enemy {
            patrol: PatrolBounds { left, right },
            dir: PatrolDir::Right,
            senses: EnemySenses {
                target: None,
                target_pos: Vec2 { x: 0, y: 0 },
                dx: 0,
                dist_sq: 0,
            },
            stats: EnemyStats { health: 40, max_health: 40 },
            impacts: EnemyImpactDurations::standard_spec(),
            durations: None,
            defense: None,
            knockback_resist: None,
            attack_timer: None,
            attack_cooldown: None,
            melee_active: false,
            last_hit_dir: None,
            stun_timer: None,
            death_timer: None,
            flip_x: false,
        }
    }

    /// The enemy with a class attached: health filled to the class's
    /// maximum, defense and knockback resistance taken from the class.
    pub open spec fn with_class(self, class: EnemyClassFile) -> Enemy {
        Enemy {
            stats: EnemyStats {
                health: class.base_stats.max_health,
                max_health: class.base_stats.max_health,
            },
            defense: Some(class.base_stats.defense),
            knockback_resist: Some(class.base_stats.knockback_resist),
            ..self
        }
    }

    /// The enemy with its clips known: swing lengths and impact lengths
    /// read from the table of clip lengths.
    pub open spec fn with_clip_lengths(self, table: Seq<ClipLength>) -> Enemy {
        Enemy {
            durations: Some(AttackDurations::from_table_spec(table, SWING_DEFAULT_NS)),
            impacts: EnemyImpactDurations::from_table_spec(table),
            ..self
        }
    }

    /// Attaches a class, see [`Enemy::with_class`].
    pub fn on_enemy_class_added_set_hp(&mut self, class: &EnemyClassFile)
        ensures
            *final(self) == old(self).with_class(*class),
            final(self).wf(),
    {
        self.stats = EnemyStats::new(class.base_stats.max_health);
        self.defense = Some(class.base_stats.defense);
        self.knockback_resist = Some(class.base_stats.knockback_resist);
    }

    /// The enemy once its clips have been looked up: with the idle clip and
    /// the standing swing found, its lengths are read from the table; with
    /// either missing it is left as it was.
    pub open spec fn with_clips(self, found: EnemyClipLookup, table: Seq<ClipLength>) -> Enemy {
        if found.assembled() is Ok {
            self.with_clip_lengths(table)
        } else {
            self
        }
    }

    /// What attaching the clips gives: the clips and the idle clip to show
    /// from the start, or the clip that is missing.
    pub open spec fn shown(found: EnemyClipLookup) -> Result<EnemyShown, MissingClip> {
        match found.assembled() {
            Ok(clips) => Ok(EnemyShown { clips, current: clips.idle }),
            Err(missing) => Err(missing),
        }
    }

    /// Attaches the clips that were looked up and takes the swing and impact
    /// lengths from the table, see [`Enemy::with_clips`] and
    /// [`Enemy::shown`].
    pub fn on_enemy_added_attach_sprite_and_anims(
        &mut self,
        found: &EnemyClipLookup,
        table: &Vec<ClipLength>,
    ) -> (shown: Result<EnemyShown, MissingClip>)
        ensures
            *final(self) == old(self).with_clips(*found, table@),
            shown == Enemy::shown(*found),
    {
        match found.assemble() {
            Ok(clips) => {
                self.durations = Some(AttackDurations::from_table(table, SWING_DEFAULT_NS));
                self.impacts = EnemyImpactDurations::from_table(table);
                Ok(EnemyShown { clips, current: clips.idle })
            },
            Err(missing) => Err(missing),
        }
    }
}

/// The record of an enemy spawned to patrol between `left` and `right`,
/// see [`Enemy::spawned`].
pub fn spawn_enemy(left: i32, right: i32) -> (enemy: Enemy)
    ensures
        enemy == Enemy::spawned(left, right),
        enemy.wf(),
{
    Enemy {
        patrol: PatrolBounds { left, right },
        dir: PatrolDir::Right,
        senses: EnemySenses {
            target: None,
            target_pos: Vec2 { x: 0, y: 0 },
            dx: 0,
            dist_sq: 0,
        },
        stats: EnemyStats::new(40),
        impacts: EnemyImpactDurations::standard(),
        durations: None,
        defense: None,
        knockback_resist: None,
        attack_timer: None,
        attack_cooldown: None,
        melee_active: false,
        last_hit_dir: None,
        stun_timer: None,
        death_timer: None,
        flip_x: false,
    }
}

/// What becomes of a body when its enemy dies.
#[derive(Clone, Copy, Debug, PartialEq, Eq)]
pub struct PassiveBody {
    /// Depth at which the body is drawn.
    pub z: i32,
    pub velocity: Vec2,
    /// Whether forces still move the body.
    pub dynamic: bool,
    /// Whether the body still collides.
    pub collides: bool,
}

/// The body of an enemy that has just died: drawn half a unit further back,
/// at rest, moved by no force and colliding with nothing.
pub fn on_added_enemy_dead_make_passive(z: i32) -> (body: PassiveBody)
    ensures
        body == (PassiveBody {
            z: clamp_int(z - 500, i32::MIN as int, i32::MAX as int) as i32,
            velocity: Vec2 { x: 0, y: 0 },
            dynamic: false,
            collides: false,
        }),
{
    PassiveBody {
        z: if z < i32::MIN + 500 {
            i32::MIN
        } else {
            z - 500
        },
        velocity: Vec2 { x: 0, y: 0 },
        dynamic: false,
        collides: false,
    }
}

/// A stun or a death cuts a swing short through the thinker too: an enemy
/// that cannot act loses its swing on the next tick of thinking, and its
/// cooldown is left as it was.
pub proof fn lemma_stun_cuts_swing_short(e: Enemy, thinker: Thinker, body: Body)
    requires
        e.disabled(),
        thinker.behavior == Behavior::Attack,
    ensures
        e.choice() == Behavior::Patrol,
        !e.thought(thinker, body).melee_active,
        e.thought(thinker, body).attack_timer is None,
        e.thought(thinker, body).attack_cooldown == e.attack_cooldown,
{
}

/// While its swing is under way, an enemy that can act stays with the
/// attack: its scores pick nothing else.
pub proof fn lemma_swing_holds_the_choice(e: Enemy)
    requires
        e.melee_active,
        !e.disabled(),
    ensures
        e.choice() == Behavior::Attack,
{
}

} // verus!
