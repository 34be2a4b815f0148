//! Operations that rework a mesh in place.
use super::mesh::Mesh;
use crate::base::GeoNum;
use vstd::prelude::*;

verus! {

/// An operation applied to a mesh.
pub trait Filter<T: GeoNum> {
    fn apply(&self, mesh: &mut Mesh<T>);
}

} // verus!
