//! Shapes and the axis-aligned bounding box.
pub mod area;
pub mod bounding_box;
pub mod collider;
pub mod polygon;
pub mod shapes;

pub use area::Area;
pub use bounding_box::BoundingBox;
pub use collider::BoxCollider;
pub use shapes::Cube;
