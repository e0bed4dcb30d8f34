//! The resolved input of an actor and the simple ground test of a body that
//! falls under its own count of speed.

use vstd::prelude::*;

verus! {

/// What the input can ask of an actor. `Move` is an axis, the others are
/// buttons.
#[derive(Clone, Copy, Debug, Hash, PartialEq, Eq, Structural)]
pub enum Action {
    Move,
    Jump,
    Attack,
    Sprint,
}

/// An actor on the ground, and which way it walks.
#[derive(Clone, Copy, Debug, PartialEq, Eq, Structural)]
pub enum Grounded {
    Left,
    Idle,
    Right,
}

impl Grounded {
    /// `-1` for left, `0` for standing and `1` for right.
    pub open spec fn direction_spec(self) -> int {
        match self {
            Grounded::Left => -1,
            Grounded::Idle => 0,
            Grounded::Right => 1,
        }
    }

    /// Computes [`Grounded::direction_spec`].
    pub fn direction(self) -> (d: i32)
        ensures
            d == self.direction_spec(),
    {
        match self {
            Grounded::Left => -1,
            Grounded::Idle => 0,
            Grounded::Right => 1,
        }
    }
}

/// An actor in the air: its vertical speed, upwards positive, and its
/// horizontal speed.
#[derive(Clone, Copy, Debug, PartialEq, Eq)]
pub struct Falling {
    pub velocity: i32,
    pub vel_x: i32,
}

/// Downward acceleration of a falling actor.
pub const GRAVITY: i32 = -980_000;

/// Ground speed at full input.
pub const PLAYER_SPEED: i32 = 150_000;

/// Sprint speed over walking speed, per mille.
pub const SPRINT_MULTIPLIER: i32 = 1750;

/// Vertical speed that a jump sets.
pub const JUMP_VELOCITY: i32 = 420_000;

/// Whether a falling actor at height `y` has come to ground: it is at or
/// below the ground line and no longer rising.
pub fn grounded(y: i32, falling: &Falling) -> (landed: bool)
    ensures
        landed == (y <= 0 && falling.velocity <= 0),
{
    y <= 0 && falling.velocity <= 0
}

} // verus!
