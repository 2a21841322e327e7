//! Renders a photograph as ASCII art on a raster canvas.
//!
//! A picture is reduced to a small grid of brightness samples, every sample
//! is replaced by a glyph from a density-ordered palette, and the glyphs are
//! drawn cell by cell onto a canvas whose colours follow the overall
//! brightness of the picture. A final pass moves the brightness of the canvas
//! towards that of the picture and removes any colour.

pub mod args;
pub mod compose;
pub mod correct;
pub mod error;
pub mod font;
pub mod luma;
pub mod raster;
pub mod render;
pub mod resample;
pub mod scale;
pub mod sfnt;
pub mod tone;
