//! An animated snowfall scene on a character grid: falling particles under
//! wind and gravity, a randomly evolving wind, decorative figures placed at
//! well-separated columns, and the per-tick update that ties them together.
//!
//! Positions are kept in fixed point: one grid cell is `SCALE` units.
//! Masses are kept in hundredths of a gram.

mod random;
pub mod particle;
pub mod wind;
pub mod layout;
pub mod scene;

pub use particle::{Snowflake, SCALE, GRAVITY, MIN_MASS, MAX_MASS};
pub use wind::Wind;
pub use layout::{Layout, plan_layout, is_apart};
pub use scene::{Scene, SnowfallIntensity, max_population_for};
