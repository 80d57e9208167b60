//! Simulation-side voxel registry and chunk bookkeeping.

pub mod chunk;
pub mod voxel;
