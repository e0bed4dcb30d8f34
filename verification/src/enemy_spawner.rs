//! Periodic spawning of enemies at random places on the map.

use crate::timer::{Timer, TimerMode};
use crate::units::{clamp_int, Vec2};
use rand::Rng;
use vstd::prelude::*;

verus! {

/// Half the width of the stretch a spawned enemy patrols.
pub const PATROL_HALF_SPAN: i32 = 100_000;

/// How far above the map's top edge the ray for the ground starts.
pub const RAY_START_ABOVE: i32 = 200_000;

/// Settings and timer of the spawner.
#[derive(Clone, Copy, Debug, PartialEq, Eq)]
pub struct EnemySpawner {
    pub timer: Timer,
    pub attempts_per_tick: u32,
    pub ray_down: i32,
    pub y_above_ground: i32,
    pub patrol_span: i32,
    pub spawn_z: i32,
}

impl EnemySpawner {
    /// A spawner that tries every five seconds, up to eight places a time.
    pub open spec fn standard() -> EnemySpawner {
        EnemySpawner {
            timer: Timer::fresh(5_000_000_000, TimerMode::Repeating),
            attempts_per_tick: 8,
            ray_down: 2_000_000,
            y_above_ground: 8_000,
            patrol_span: 100_000,
            spawn_z: -100_100i32,
        }
    }

    /// The spawner after `dt` nanoseconds. Without a map the timer stands
    /// still.
    pub open spec fn ticked(self, dt: u64, has_map: bool) -> EnemySpawner {
        if has_map {
            EnemySpawner { timer: self.timer.ticked(dt), ..self }
        } else {
            self
        }
    }

    /// Advances the spawner by `dt` nanoseconds. Returns whether to try to
    /// spawn now: there is a map and the timer has just run out.
    pub fn tick_enemy_spawner(&mut self, dt: u64, has_map: bool) -> (spawn: bool)
        ensures
            *final(self) == old(self).ticked(dt, has_map),
            spawn == (has_map && old(self).timer.ticked(dt).times_finished_this_tick > 0),
    {
        if !has_map {
            return false;
        }
        self.timer.tick(dt);
        self.timer.just_finished()
    }
}

impl Default for EnemySpawner {
    fn default() -> (spawner: EnemySpawner)
        ensures
            spawner == EnemySpawner::standard(),
    {
        EnemySpawner {
            timer: Timer::new(5_000_000_000, TimerMode::Repeating),
            attempts_per_tick: 8,
            ray_down: 2_000_000,
            y_above_ground: 8_000,
            patrol_span: 100_000,
            spawn_z: -100_100,
        }
    }
}

/// `x` as an `i32`, stopping at the ends of its range.
pub open spec fn saturated(x: int) -> i32 {
    clamp_int(x, i32::MIN as int, i32::MAX as int) as i32
}

/// Computes [`saturated`].
pub fn saturate(x: i64) -> (s: i32)
    ensures
        s == saturated(x as int),
{
    if x < i32::MIN as i64 {
        i32::MIN
    } else if x > i32::MAX as i64 {
        i32::MAX
    } else {
        x as i32
    }
}

/// Computes [`saturated`] for a wider value.
pub fn saturate_wide(x: i128) -> (s: i32)
    ensures
        s == saturated(x as int),
{
    if x < i32::MIN as i128 {
        i32::MIN
    } else if x > i32::MAX as i128 {
        i32::MAX
    } else {
        x as i32
    }
}

/// The corners of the map in the world: the lower left one is the map's
/// place moved by the anchor's offset, the upper right one lies the map's
/// size further, the size being its tiles times the size of a grid cell.
pub open spec fn map_corners(tiles: (u32, u32), grid: Vec2, offset: Vec2, at: Vec2) -> (
    Vec2,
    Vec2,
) {
    let min_x = saturated(at.x + offset.x);
    let min_y = saturated(at.y + offset.y);
    (
        Vec2 { x: min_x, y: min_y },
        Vec2 { x: saturated(min_x + tiles.0 * grid.x), y: saturated(min_y + tiles.1 * grid.y) },
    )
}

/// Computes [`map_corners`].
pub fn tilemap_world_aabb(tiles: (u32, u32), grid: Vec2, offset: Vec2, at: Vec2) -> (corners: (
    Vec2,
    Vec2,
))
    ensures
        corners == map_corners(tiles, grid, offset, at),
{
    let min_x = saturate(at.x as i64 + offset.x as i64);
    let min_y = saturate(at.y as i64 + offset.y as i64);
    let tiles_x: i128 = tiles.0 as i128;
    let tiles_y: i128 = tiles.1 as i128;
    let grid_x: i128 = grid.x as i128;
    let grid_y: i128 = grid.y as i128;
    assert(-0x1_0000_0000_0000_0000 < tiles_x * grid_x < 0x1_0000_0000_0000_0000)
        by (nonlinear_arith)
        requires
            0 <= tiles_x <= 0xffff_ffff,
            -0x8000_0000 <= grid_x < 0x8000_0000,
    ;
    assert(-0x1_0000_0000_0000_0000 < tiles_y * grid_y < 0x1_0000_0000_0000_0000)
        by (nonlinear_arith)
        requires
            0 <= tiles_y <= 0xffff_ffff,
            -0x8000_0000 <= grid_y < 0x8000_0000,
    ;
    let max_x: i128 = min_x as i128 + tiles_x * grid_x;
    let max_y: i128 = min_y as i128 + tiles_y * grid_y;
    (Vec2 { x: min_x, y: min_y }, Vec2 { x: saturate_wide(max_x), y: saturate_wide(max_y) })
}

/// `rand::Rng::random_range` on the generator that `rand::rng` hands out:
/// some value from `min_x` up to but not including `max_x`. Which one is
/// not said; the range must not be empty.
#[verifier::external_body]
fn random_x_in_map(min_x: i32, max_x: i32) -> (x: i32)
    requires
        min_x < max_x,
    ensures
        min_x <= x < max_x,
{
    rand::rng().random_range(min_x..max_x)
}

/// A random place between the left and the right edge of the map, the left
/// included. A map of no width has none.
pub fn pick_x_in_map(min: Vec2, max: Vec2) -> (x: Option<i32>)
    ensures
        (x is Some) <==> min.x < max.x,
        x matches Some(x) ==> min.x <= x < max.x,
{
    if min.x < max.x {
        Some(random_x_in_map(min.x, max.x))
    } else {
        None
    }
}

/// Where a ray for the ground starts: at `x`, well above the map's top.
pub fn spawn_ray_start(x: i32, max: Vec2) -> (start: Vec2)
    ensures
        start == (Vec2 { x, y: saturated(max.y + RAY_START_ABOVE) }),
{
    Vec2 { x, y: saturate(max.y as i64 + RAY_START_ABOVE as i64) }
}

/// Where to spawn an enemy and the ends of its patrol.
#[derive(Clone, Copy, Debug, PartialEq, Eq)]
pub struct SpawnPoint {
    pub position: Vec2,
    pub patrol_left: i32,
    pub patrol_right: i32,
}

/// The spawn point for a ray that went down from `start` and met ground
/// after `distance`: `y_above` over the ground, patrolling
/// [`PATROL_HALF_SPAN`] to either side.
pub open spec fn spawn_point_at(start: Vec2, distance: i32, y_above: i32) -> SpawnPoint {
    SpawnPoint {
        position: Vec2 { x: start.x, y: saturated(start.y - distance + y_above) },
        patrol_left: saturated(start.x - PATROL_HALF_SPAN),
        patrol_right: saturated(start.x + PATROL_HALF_SPAN),
    }
}

/// The spawn point for the ray cast down from `start`, if the ray met
/// ground.
pub fn try_pick_spawn_point(start: Vec2, hit_distance: Option<i32>, y_above: i32) -> (point: Option<
    SpawnPoint,
>)
    ensures
        point == (match hit_distance {
            Some(distance) => Some(spawn_point_at(start, distance, y_above)),
            None => None,
        }),
{
    match hit_distance {
        Some(distance) => Some(
            SpawnPoint {
                position: Vec2 {
                    x: start.x,
                    y: saturate(start.y as i64 - distance as i64 + y_above as i64),
                },
                patrol_left: saturate(start.x as i64 - PATROL_HALF_SPAN as i64),
                patrol_right: saturate(start.x as i64 + PATROL_HALF_SPAN as i64),
            },
        ),
        None => None,
    }
}

/// What the spawner does next within one round of attempts.
#[derive(Clone, Copy, Debug, PartialEq, Eq)]
pub enum SpawnStep {
    /// Cast a ray down from here, at most this far, and report what it met.
    Cast { start: Vec2, max_distance: i32 },
    /// Spawn an enemy here; the round is over.
    Spawn(SpawnPoint),
    /// Nothing more to try; the round is over.
    GiveUp,
}

/// One round of attempts to find a place to spawn.
#[derive(Clone, Copy, Debug, PartialEq, Eq)]
pub struct SpawnRound {
    pub min: Vec2,
    pub max: Vec2,
    pub attempts_left: u32,
    pub ray_down: i32,
    pub y_above_ground: i32,
    /// Where the ray that is out was cast from.
    pub pending: Option<Vec2>,
}

impl SpawnRound {
    /// A round over the map between `min` and `max` with the spawner's
    /// number of attempts, none made yet.
    pub fn begin(spawner: &EnemySpawner, min: Vec2, max: Vec2) -> (round: SpawnRound)
        ensures
            round == (SpawnRound {
                min,
                max,
                attempts_left: spawner.attempts_per_tick,
                ray_down: spawner.ray_down,
                y_above_ground: spawner.y_above_ground,
                pending: None,
            }),
    {
        SpawnRound {
            min,
            max,
            attempts_left: spawner.attempts_per_tick,
            ray_down: spawner.ray_down,
            y_above_ground: spawner.y_above_ground,
            pending: None,
        }
    }

    /// The round with nothing left to try.
    pub open spec fn over(self) -> SpawnRound {
        SpawnRound { attempts_left: 0, pending: None, ..self }
    }

    /// The spawn point that the ray which was out gives, if it met ground.
    pub open spec fn found(self, hit_distance: Option<i32>) -> Option<SpawnPoint> {
        match (self.pending, hit_distance) {
            (Some(start), Some(distance)) => Some(
                spawn_point_at(start, distance, self.y_above_ground),
            ),
            _ => None,
        }
    }

    /// Whether another ray can be cast: an attempt is left and the map has
    /// a width.
    pub open spec fn can_cast(self) -> bool {
        self.attempts_left > 0 && self.min.x < self.max.x
    }

    /// The next step of the round, given what the ray that was out has met.
    ///
    /// A ray that met ground ends the round with a spawn at the point it
    /// gives. Otherwise, while attempts are left and the map has a width,
    /// one attempt is used on a ray from a random place over the map; else
    /// the round gives up.
    pub fn next(&mut self, hit_distance: Option<i32>) -> (step: SpawnStep)
        ensures
            old(self).found(hit_distance) matches Some(point) ==> step == SpawnStep::Spawn(point)
                && *final(self) == old(self).over(),
            (old(self).found(hit_distance) is None) && !old(self).can_cast() ==> step
                == SpawnStep::GiveUp && *final(self) == old(self).over(),
            (old(self).found(hit_distance) is None) && old(self).can_cast() ==> {
                &&& step matches SpawnStep::Cast { start, max_distance }
                &&& old(self).min.x <= start.x < old(self).max.x
                &&& start.y == saturated(old(self).max.y + RAY_START_ABOVE)
                &&& max_distance == old(self).ray_down
                &&& *final(self) == (SpawnRound {
                    attempts_left: (old(self).attempts_left - 1) as u32,
                    pending: Some(start),
                    ..*old(self)
                })
            },
    {
        let met = match self.pending {
            Some(start) => try_pick_spawn_point(start, hit_distance, self.y_above_ground),
            None => None,
        };
        match met {
            Some(point) => {
                self.attempts_left = 0;
                self.pending = None;
                SpawnStep::Spawn(point)
            },
            None => {
                let x = if self.attempts_left > 0 {
                    pick_x_in_map(self.min, self.max)
                } else {
                    None
                };
                match x {
                    Some(x) => {
                        let start = spawn_ray_start(x, self.max);
                        self.attempts_left = self.attempts_left - 1;
                        self.pending = Some(start);
                        SpawnStep::Cast { start, max_distance: self.ray_down }
                    },
                    None => {
                        self.attempts_left = 0;
                        self.pending = None;
                        SpawnStep::GiveUp
                    },
                }
            },
        }
    }
}

} // verus!
