//! Decoding of a robot vacuum's compressed map telemetry and rendering of the
//! map as a single-line SVG document.
//!
//! Plot-space coordinates are carried as integers counting thousandths of a
//! plot unit, which holds every value of the three-digit rounding exactly.

pub mod decompress;
pub mod document;
pub mod error;
pub mod geometry;
pub mod laws;
pub mod map_data;
pub mod number;
pub mod path;
pub mod shapes;
pub mod subset;
pub mod svg_node;
pub mod text;
pub mod trace;
