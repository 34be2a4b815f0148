//! A mesh vertex.
use crate::base::{GeoNum, Point, Vec3};
use vstd::prelude::*;

verus! {

/// A vertex of a mesh.
#[derive(Clone, Copy, Debug)]
pub struct Vertex<T: GeoNum> {
    pub x: T,
    pub y: T,
    pub z: T,
}

impl<T: GeoNum> Vertex<T> {
    pub fn new(x: T, y: T, z: T) -> (r: Self)
        ensures
            r == (Vertex { x, y, z }),
    {
        Vertex { x, y, z }
    }

    pub fn from_tripple(pos: (T, T, T)) -> (r: Self)
        ensures
            r == (Vertex { x: pos.0, y: pos.1, z: pos.2 }),
    {
        Vertex { x: pos.0, y: pos.1, z: pos.2 }
    }

    /// The vertex of the first three components; the fourth is dropped.
    pub fn from_quad(pos: (T, T, T, T)) -> (r: Self)
        ensures
            r == (Vertex { x: pos.0, y: pos.1, z: pos.2 }),
    {
        Vertex { x: pos.0, y: pos.1, z: pos.2 }
    }

    /// The three coordinates as integers.
    pub open spec fn ints(self) -> (int, int, int) {
        (self.x.as_int(), self.y.as_int(), self.z.as_int())
    }
}

impl<T: GeoNum> Point<T> for Vertex<T> {
    open spec fn position(self) -> Vec3<T> {
        Vec3 { x: self.x, y: self.y, z: self.z }
    }

    fn from_vec3(pos: Vec3<T>) -> (r: Self) {
        Vertex { x: pos.x, y: pos.y, z: pos.z }
    }

    fn to_vec3(self) -> (r: Vec3<T>) {
        Vec3 { x: self.x, y: self.y, z: self.z }
    }
}

} // verus!
