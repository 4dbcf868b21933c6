//! A donation "progress thermometer" renderer.
//!
//! The crate turns a donation configuration (a goal and a list of team
//! amounts, held in whole cents) into a fully specified vector scene, and
//! plans its conversion to a raster image at a caller-chosen scale.  All
//! geometry is carried in hundredths of a pixel, so the two-decimal
//! rounding that the drawing shows is part of each function's contract.
//!
//! - [`progress`] reduces a goal and team amounts to a completion ratio.
//! - [`geometry`] derives every coordinate and font size of the gauge.
//! - [`palette`] holds the two fixed color themes.
//! - [`numfmt`] renders the fixed-point values the scene displays.
//! - [`scene`] composes the SVG document, byte for byte.
//! - [`raster`] makes every decision of the rasterization pipeline.

pub mod config;
pub mod geometry;
pub mod numfmt;
pub mod palette;
pub mod progress;
pub mod raster;
pub mod scene;
