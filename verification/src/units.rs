//! Fixed-point helpers shared by the movement and combat rules.

use vstd::prelude::*;

verus! {

/// One whole unit, or the fraction one, in thousandths.
pub const SCALE: i32 = 1000;

/// Nanoseconds in one second.
pub const NANOS_PER_SECOND: u64 = 1_000_000_000;

/// A point or a direction in the plane.
#[derive(Clone, Copy, Debug, PartialEq, Eq, Structural)]
pub struct Vec2 {
    pub x: i32,
    pub y: i32,
}

/// The absolute value of an integer.
pub open spec fn abs_int(x: int) -> int {
    if x < 0 {
        -x
    } else {
        x
    }
}

/// `x` limited to the closed range from `lo` to `hi`.
pub open spec fn clamp_int(x: int, lo: int, hi: int) -> int {
    if x < lo {
        lo
    } else if x > hi {
        hi
    } else {
        x
    }
}

/// The sign of a value the way a non-negative zero is signed: `1` from zero
/// upwards and `-1` below.
pub open spec fn facing_sign(x: int) -> int {
    if x >= 0 {
        1
    } else {
        -1
    }
}

/// `current` moved towards `target` by at most `max_step`.
pub open spec fn approach_int(current: int, target: int, max_step: int) -> int {
    current + clamp_int(target - current, -max_step, max_step)
}

/// The largest change of speed that `accel` (in whole units per second
/// squared) allows within `dt` nanoseconds, in thousandths of a unit per
/// second, rounded down.
pub open spec fn speed_step(accel: u32, dt: u64) -> int {
    accel as int * dt as int / 1_000_000
}

/// The magnitude of `x`, widened so that it cannot overflow.
pub fn magnitude(x: i32) -> (m: i64)
    ensures
        m == abs_int(x as int),
        0 <= m <= 0x8000_0000,
{
    let wide: i64 = x as i64;
    if wide < 0 {
        -wide
    } else {
        wide
    }
}

/// The sign of `x`, counting zero as positive.
pub fn sign_of(x: i64) -> (s: i32)
    ensures
        s == facing_sign(x as int),
{
    if x >= 0 {
        1
    } else {
        -1
    }
}

/// Moves `current` towards `target` by at most `max_step`.
pub fn approach(current: i32, target: i32, max_step: u64) -> (next: i32)
    ensures
        next == approach_int(current as int, target as int, max_step as int),
        current <= target ==> current <= next <= target,
        target <= current ==> target <= next <= current,
{
    let diff: i64 = target as i64 - current as i64;
    if diff >= 0 {
        if diff as u64 <= max_step {
            target
        } else {
            (current as i64 + max_step as i64) as i32
        }
    } else {
        if (-diff) as u64 <= max_step {
            target
        } else {
            (current as i64 - max_step as i64) as i32
        }
    }
}

/// Computes [`speed_step`], stopping at the largest `u64`.
pub fn max_speed_step(accel: u32, dt: u64) -> (step: u64)
    ensures
        step == clamp_int(speed_step(accel, dt), 0, u64::MAX as int),
{
    assert(0 <= accel as int * dt as int <= 0xffff_ffff * 0xffff_ffff_ffff_ffff)
        by (nonlinear_arith)
        requires
            0 <= accel <= 0xffff_ffff,
            0 <= dt <= 0xffff_ffff_ffff_ffff,
    ;
    let product: u128 = accel as u128 * dt as u128;
    let step: u128 = product / 1_000_000;
    if step > u64::MAX as u128 {
        u64::MAX
    } else {
        step as u64
    }
}

/// `-x`, with the one value that has no negative mapped to the largest.
pub open spec fn mirrored(x: i32) -> i32 {
    if x == i32::MIN {
        i32::MAX
    } else {
        (-x) as i32
    }
}

/// Computes [`mirrored`].
pub fn mirror(x: i32) -> (m: i32)
    ensures
        m == mirrored(x),
{
    if x == i32::MIN {
        i32::MAX
    } else {
        -x
    }
}

} // verus!
