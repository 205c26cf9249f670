//! Draw-call batching and coordinate-transform engine for an immediate-mode 2D renderer.
pub mod geometry;
pub mod style;
pub mod mesh;
pub mod batch;
pub mod uniforms;
pub mod context;
pub mod layout;
