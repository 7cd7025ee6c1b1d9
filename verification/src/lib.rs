//! Core of an interactive rendering demo: the control-thread frame loop, the
//! scene-build worker it drives through an ordered command queue, the camera
//! state machine, and the epoch-guarded transient message timer.
//!
//! Scene tessellation, GPU work, windowing and floating-point evaluation are
//! collaborators outside this crate; the library models their data as plain
//! values (single-precision scalars travel as their bit patterns) and proves
//! the control flow, ordering and state transitions that surround them.

pub mod camera;
pub mod controller;
pub mod geom;
pub mod immersive;
pub mod message;
pub mod options;
pub mod raster;
pub mod shaper;
pub mod text;
pub mod tilemap;
pub mod worker;
