//! Gun and projectile logic for a small top-down shooter.
//!
//! Units used throughout the library:
//! - time is counted in whole microseconds;
//! - positions are counted in nano-units (a billionth of a world unit);
//! - velocities are counted in milli-units per second, so that a velocity
//!   times a duration in microseconds is a displacement in nano-units;
//! - aim headings are unit vectors written in thousandths.

pub mod config;
pub mod geometry;

pub mod gun;
pub mod projectile;
pub mod aim;
pub mod enemy;
