//! Procedural reference grid: the line segments, per-vertex colours and
//! line-list indices of a square grid centred on the origin.

pub mod axis;
pub mod laws;

pub mod mesh;

pub use axis::{GridAxis, LineFamily, WorldAxis};
pub use mesh::{create_grid_mesh, GridConfig, GridPoint, LineMesh, MeshView, MAX_GRID_SIZE};
