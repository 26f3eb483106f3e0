//! A small simulation of shrinking shapes that drift across a canvas and wrap
//! around its edges, with the square sprites that picture them.
//!
//! Lengths are fixed-point integers of [`UNITS_PER_PIXEL`] units to the pixel,
//! and time is counted in microseconds, so every step is exact.

mod sprite;
mod units;
mod world;

pub use sprite::{
    render, triangle_vertices, PixelPoint, ShapeKind, Sprite, APEX_DENOMINATOR, APEX_NUMERATOR,
    WHITE,
};
pub use units::{
    round_pixels, MAX_RADIUS, MAX_SPEED, MAX_TICK, POSITION_LIMIT, REMOVAL_THRESHOLD,
    SHRINK_PER_MICROSECOND, UNITS_PER_PIXEL,
};
pub use world::{
    advance, App, Shape, SpawnDraw, Vec2, World, HALF_EXTENT_LIMIT, MIN_SPAWN_RADIUS,
    POPULATION_CAP,
};
