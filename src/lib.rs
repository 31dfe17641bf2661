//! A small 2D platformer core: a tile world, a single body moved by gravity and
//! walking, swept collision against solid tiles, a scrolling viewport and a
//! character-cell renderer.
//!
//! Coordinates and velocities are fixed-point integers in hundredths of a tile.
pub mod body;
pub mod level;
pub mod render;
pub mod sim;
pub mod sim_laws;
pub mod viewport;
pub mod world;
