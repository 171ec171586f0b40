//! Material Design 3 widget tokens and chrome decisions for WaterUI
//! self-drawn backends.
//!
//! Lengths are whole density-independent pixels (dp) and opacities are whole
//! percentages; colors are named by their Material role and resolved against a
//! color scheme by the renderer.
pub mod color;
pub mod dimensions;
pub mod metrics;
pub mod state;
pub mod controls;
pub mod icon_button;
pub mod layout;
pub mod navigation;
pub mod theme;
