//! A planetarium core: a celestial sphere (equatorial grid, constellation
//! paths, star positions) projected through an orbiting perspective camera
//! onto a 2D viewport, with depth clipping and grid-edge coordinate labels.
//!
//! All geometry is carried in fixed-point scalars: an `i64` holds a quantity
//! in millionths of its unit (radians, normalized device coordinates,
//! pixels). The host shell evaluates the trigonometric functions and feeds
//! the results in as fixed-point samples; every formula, matrix, clip test
//! and label decision lives here.

pub mod camera;
pub mod catalog;
pub mod consts;
pub mod fixed;
pub mod geom;
pub mod markers;
pub mod parse;
pub mod projection;
pub mod render;
pub mod scene;
pub mod stargazer;
pub mod text;
pub mod units;
pub mod world;
