//! Procedural 2D artwork: a dual vector/raster canvas with lossy and
//! lossless conversions and export planning, and a stochastic painting
//! procedure that approximates a reference raster image with polygons.
//!
//! Color channels, coordinates and opacities are exact fixed-point
//! integers, so every conversion and every painting step is stated and
//! proved exactly; floating-point front ends convert at the boundary.

pub mod canvas;
pub mod color;
pub mod preslav;
pub mod sketchers;
pub mod web;
