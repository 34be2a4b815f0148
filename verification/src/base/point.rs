//! Positions in three dimensions and the index of a grid cell.
use super::{GridNum, OrdNum};
use vstd::prelude::*;

verus! {

/// A triple of scalars: a position or an extent in three dimensions.
#[derive(Clone, Copy, Debug)]
pub struct Vec3<T> {
    pub x: T,
    pub y: T,
    pub z: T,
}

impl<T: OrdNum> Vec3<T> {
    pub fn new(x: T, y: T, z: T) -> (r: Self)
        ensures
            r == (Vec3 { x, y, z }),
    {
        Vec3 { x, y, z }
    }

    /// The origin.
    pub fn zero() -> (r: Self)
        ensures
            r.x.as_int() == 0,
            r.y.as_int() == 0,
            r.z.as_int() == 0,
    {
        Vec3 { x: T::zero(), y: T::zero(), z: T::zero() }
    }

    /// The triple whose three components all equal `v`.
    pub fn broadcast(v: T) -> (r: Self)
        ensures
            r == (Vec3 { x: v, y: v, z: v }),
    {
        Vec3 { x: v, y: v, z: v }
    }

    /// The three components as integers.
    pub open spec fn ints(self) -> (int, int, int) {
        (self.x.as_int(), self.y.as_int(), self.z.as_int())
    }

    /// Triples with the same integer components are the same triple.
    pub proof fn lemma_ints_injective(a: Self, b: Self)
        requires
            a.ints() == b.ints(),
        ensures
            a == b,
    {
        T::lemma_injective(a.x, b.x);
        T::lemma_injective(a.y, b.y);
        T::lemma_injective(a.z, b.z);
    }

    /// Whether two triples agree in every component.
    pub fn same(self, other: Self) -> (b: bool)
        ensures
            b == (self == other),
    {
        self.x.same(other.x) && self.y.same(other.y) && self.z.same(other.z)
    }
}

/// A value that can be made from a position and turned back into one.
pub trait Point<T: OrdNum>: Sized {
    /// The position this value stands at.
    spec fn position(self) -> Vec3<T>;

    fn from_vec3(pos: Vec3<T>) -> (r: Self)
        ensures
            r.position() == pos,
    ;

    fn to_vec3(self) -> (r: Vec3<T>)
        ensures
            r == self.position(),
    ;
}

/// The flat index of a grid cell or of a point in a mesh.
#[derive(Clone, Copy, Debug, Default, PartialEq, Eq, Structural, PartialOrd, Ord, Hash)]
pub struct PointIndex(usize);

impl View for PointIndex {
    type V = usize;

    closed spec fn view(&self) -> usize {
        self.0
    }
}

impl PointIndex {
    pub fn new(x: usize) -> (r: Self)
        ensures
            r@ == x,
    {
        PointIndex(x)
    }

    pub fn index(self) -> (i: usize)
        ensures
            i == self@,
    {
        self.0
    }

    /// The largest index, used as an end marker.
    pub fn end() -> (r: Self)
        ensures
            r@ == usize::MAX,
    {
        PointIndex(usize::MAX)
    }

    /// An index is determined by its number.
    pub proof fn lemma_view_injective(a: Self, b: Self)
        requires
            a@ == b@,
        ensures
            a == b,
    {
    }
}

} // verus!
