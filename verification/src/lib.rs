//! Core of a small immediate-mode rendering toolkit.
//!
//! The library covers the parts of the pipeline that are pure bookkeeping over
//! plain values: pixel-buffer rasterization, interleaved vertex batching,
//! glyph-table lookup and text-run selection, rectangle triangulation, mesh
//! fan triangulation, and the scene tree.  Scalar-valued geometry is generic
//! over the component type, so the same verified batching code runs on any
//! payload the surrounding renderer chooses.

pub mod batch;
pub mod geometry;
pub mod lit_renderer;
pub mod nodes;
pub mod simple_mesh;
pub mod text_renderer;
pub mod texture;
pub mod texture_renderer;
