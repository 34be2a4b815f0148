//! A small 3D geometry toolkit: integer scalars, axis-aligned boxes, meshes
//! and a sparse grid that maps lattice positions to items.
pub mod base;
pub mod geom;
pub mod graph;
pub mod grid;
pub mod mesh;
pub mod wavefront;
