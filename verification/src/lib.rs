//! A flip-style digital clock: layout, flip animation, card compositing and
//! rounded-rectangle rasterization, computed as plain drawing commands that a
//! graphics backend carries out.
//!
//! Fractions are fixed-point integers throughout: animation progress counts
//! thousandths, eased progress counts billionths.

pub mod clock;
pub mod compositor;
pub mod config;
pub mod easing;
pub mod geometry;
pub mod graphics_engine;
pub mod input;
pub mod layout;
pub mod raster;
