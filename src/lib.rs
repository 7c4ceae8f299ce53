//! A raster canvas with pan, zoom and rotation, an event-driven tool set and a
//! brush engine that plans textured stamps along a stroke.
//!
//! Lengths are fixed-point integers: one pixel is `UNITS_PER_PIXEL` units.
//! Zoom is held in millionths. Rotation is held as a count of 5-degree steps.

pub mod numeric;
pub mod geometry;
pub mod transform;
pub mod event;
pub mod canvas;
pub mod state;
pub mod pan;
pub mod zoom;
pub mod rotate;
pub mod texture;
pub mod brush_definition;
pub mod brush_manager;
pub mod stroke;
pub mod brush;
pub mod text;
pub mod app;
pub mod program;
