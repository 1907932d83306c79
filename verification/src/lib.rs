//! Core logic of a scrollable-viewport text-editor shell: viewport clamping
//! and panning, scrollbar geometry and interaction state, and configuration
//! (themes, settings, recent workspaces).
//!
//! Geometry is carried in integer (whole-pixel) coordinates so that every
//! computation here is exact; the host toolkit's floating-point values are
//! converted at the boundary.

pub mod config;
pub mod geometry;
pub mod scroll;
