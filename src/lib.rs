//! Render-state logic for a single full-screen animated quad: the surface
//! extent and its resize rule, the elapsed-time uniform, the fixed pipeline
//! description, the quad geometry, and the per-frame decisions that turn a
//! surface-acquisition outcome into the work the GPU layer performs.

pub mod surface;
pub mod clock;
pub mod geometry;
pub mod pipeline;
pub mod frame;
pub mod state;
pub mod driver;
