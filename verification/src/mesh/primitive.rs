//! What every mesh-like shape offers: its vertices and its faces.
use super::vertex::Vertex;
use crate::base::{Face, GeoNum, PointIndex, VertexIndex};
use vstd::prelude::*;

verus! {

/// The vertex lists of a sequence of faces.
pub open spec fn face_views(faces: Seq<Face>) -> Seq<Seq<VertexIndex>> {
    Seq::new(faces.len(), |i: int| faces[i]@)
}

/// A shape made of vertices and of faces over them.
pub trait Primitive<T: GeoNum> {
    /// The vertices, in the order they were added.
    spec fn points(&self) -> Seq<Vertex<T>>;

    /// The vertex list of each face, in the order the faces were added.
    spec fn face_lists(&self) -> Seq<Seq<VertexIndex>>;

    fn verticies(&self) -> (r: &Vec<Vertex<T>>)
        ensures
            r@ == self.points(),
    ;

    fn faces(&self) -> (r: &Vec<Face>)
        ensures
            face_views(r@) == self.face_lists(),
    ;

    /// The vertex at `index`, or `None` where there is none.
    fn vertex(&self, index: PointIndex) -> (r: Option<&Vertex<T>>)
        ensures
            match r {
                Some(v) => index@ < self.points().len() && *v == self.points()[index@ as int],
                None => index@ >= self.points().len(),
            },
    ;

    /// The vertex at `index` for writing. What the caller leaves in it is
    /// the vertex afterwards; nothing else changes.
    fn vertex_mut(&mut self, index: PointIndex) -> (r: Option<&mut Vertex<T>>)
        ensures
            final(self).face_lists() == old(self).face_lists(),
            match r {
                Some(v) => {
                    &&& index@ < old(self).points().len()
                    &&& *v == old(self).points()[index@ as int]
                    &&& final(self).points() == old(self).points().update(index@ as int, *final(v))
                },
                None => {
                    &&& index@ >= old(self).points().len()
                    &&& final(self).points() == old(self).points()
                },
            },
    ;
}

} // verus!
