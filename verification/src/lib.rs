//! Actor state machines and melee combat resolution for a side-scrolling
//! action platformer, over fixed-point integers.
//!
//! Lengths and positions are thousandths of a world unit, speeds are
//! thousandths of a unit per second, fractions are per mille, and time is
//! counted in nanoseconds.

pub mod animations;
pub mod character;
pub mod class;
pub mod controls;
pub mod enemy;
pub mod enemy_class;
pub mod enemy_spawner;
pub mod gameflow;
pub mod hud;
pub mod level;
pub mod raycasts;
pub mod timer;
pub mod units;
