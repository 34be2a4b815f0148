//! Between meshes and the records and text of Wavefront OBJ files.
pub mod export_obj;
pub mod parse_obj;

pub use export_obj::export_bytes;
pub use parse_obj::{build_mesh, mesh_add_face, Polygon};
