//! Meshes: vertices, and faces over them.
pub mod collider;
pub mod filter;
pub mod mesh;
pub mod primitive;
pub mod shapes;
pub mod vertex;

pub use crate::base::{Face, FaceIndex};
pub use collider::Collider;
pub use filter::Filter;
pub use mesh::Mesh;
pub use primitive::Primitive;
pub use vertex::Vertex;
