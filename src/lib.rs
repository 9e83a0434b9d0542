//! Generation and face-culling meshing of one fixed-size voxel chunk.
//!
//! Positions in this library are integers. Grid and world coordinates are in
//! voxel units; mesh geometry is in half-voxel units, so that a voxel's centre
//! and its corners are all whole numbers.

pub mod error;
pub mod voxel;
pub mod quad;
pub mod chunk;
pub mod mesh;
pub mod surface;
