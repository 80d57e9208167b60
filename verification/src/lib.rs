//! Runtime core of a frame-driven voxel renderer: normalized input events,
//! a first-person camera on fixed-point arithmetic, dense chunk volumes and
//! their mesh conversion, a viewport configuration policy, and the module
//! composition plus tick decisions of the engine loop.

pub mod engine;
pub mod event;
pub mod application;
pub mod camera;
pub mod fixed;
pub mod input;
pub mod module;
pub mod renderer;
pub mod rendering;
pub mod simulation;
pub mod state;
pub mod transform;
pub mod viewport;
pub mod voxel;
