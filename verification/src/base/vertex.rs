//! A lattice vertex and the index of a vertex in a mesh.
use super::{GridNum, Point, Vec3};
use vstd::prelude::*;

verus! {

/// The index of a vertex.
#[derive(Clone, Copy, Debug, Default, PartialEq, Eq, Structural, PartialOrd, Ord, Hash)]
pub struct VertexIndex(usize);

impl View for VertexIndex {
    type V = usize;

    closed spec fn view(&self) -> usize {
        self.0
    }
}

impl VertexIndex {
    pub fn new(x: usize) -> (r: Self)
        ensures
            r@ == x,
    {
        VertexIndex(x)
    }

    pub fn index(self) -> (i: usize)
        ensures
            i == self@,
    {
        self.0
    }

    /// The largest index, used as an end marker.
    pub fn end() -> (r: Self)
        ensures
            r@ == usize::MAX,
    {
        VertexIndex(usize::MAX)
    }

    /// An index is determined by its number.
    pub proof fn lemma_view_injective(a: Self, b: Self)
        requires
            a@ == b@,
        ensures
            a == b,
    {
    }
}

/// A vertex on the integer lattice.
#[derive(Clone, Copy, Debug)]
pub struct Vertex<T: GridNum> {
    pub x: T,
    pub y: T,
    pub z: T,
}

impl<T: GridNum> Vertex<T> {
    pub fn new(x: T, y: T, z: T) -> (r: Self)
        ensures
            r == (Vertex { x, y, z }),
    {
        Vertex { x, y, z }
    }
}

impl<T: GridNum> Point<T> for Vertex<T> {
    open spec fn position(self) -> Vec3<T> {
        Vec3 { x: self.x, y: self.y, z: self.z }
    }

    fn from_vec3(pos: Vec3<T>) -> (r: Self) {
        Vertex { x: pos.x, y: pos.y, z: pos.z }
    }

    fn to_vec3(self) -> (r: Vec3<T>) {
        Vec3 { x: self.x, y: self.y, z: self.z }
    }
}

} // verus!
