//! A line segment between two vertices.
use super::{GridNum, OrdNum, Vec3, Vertex};
use vstd::prelude::*;

verus! {

/// A segment from `start` to `target`, directed or not.
pub struct Line<'a, T: GridNum> {
    start: &'a Vertex<T>,
    target: &'a Vertex<T>,
    directed: bool,
}

impl<'a, T: GridNum> Line<'a, T> {
    pub closed spec fn start(self) -> Vertex<T> {
        *self.start
    }

    pub closed spec fn target(self) -> Vertex<T> {
        *self.target
    }

    pub closed spec fn directed(self) -> bool {
        self.directed
    }

    pub fn new(start: &'a Vertex<T>, target: &'a Vertex<T>) -> (r: Self)
        ensures
            r.start() == *start,
            r.target() == *target,
            !r.directed(),
    {
        Line { start, target, directed: false }
    }

    pub fn new_directed(start: &'a Vertex<T>, target: &'a Vertex<T>) -> (r: Self)
        ensures
            r.start() == *start,
            r.target() == *target,
            r.directed(),
    {
        Line { start, target, directed: true }
    }

    /// Half the product of two coordinates, rounded toward zero.
    pub open spec fn half_product(a: int, b: int) -> int {
        super::trunc_div(a * b, 2)
    }

    /// Whether `half_product(a, b)` can be computed in `T`.
    pub open spec fn half_product_defined(a: int, b: int) -> bool {
        &&& T::min_int() <= a * b <= T::max_int()
        &&& 2 <= T::max_int()
    }

    /// The vertex whose coordinates are, axis by axis, half the product of
    /// the coordinates of the two end points.
    pub fn centroid(&self) -> (r: Vertex<T>)
        requires
            Self::half_product_defined(self.start().x.as_int(), self.target().x.as_int()),
            Self::half_product_defined(self.start().y.as_int(), self.target().y.as_int()),
            Self::half_product_defined(self.start().z.as_int(), self.target().z.as_int()),
        ensures
            r.x.as_int() == Self::half_product(self.start().x.as_int(), self.target().x.as_int()),
            r.y.as_int() == Self::half_product(self.start().y.as_int(), self.target().y.as_int()),
            r.z.as_int() == Self::half_product(self.start().z.as_int(), self.target().z.as_int()),
    {
        let one = T::one();
        proof {
            T::lemma_range(one);
        }
        let two = one.plus(one);
        let px = self.start.x.times(self.target.x);
        let py = self.start.y.times(self.target.y);
        let pz = self.start.z.times(self.target.z);
        proof {
            T::lemma_range(px);
            assert(T::min_int() <= super::trunc_div(px.as_int(), 2) <= T::max_int());
            assert(T::min_int() <= super::trunc_div(py.as_int(), 2) <= T::max_int());
            assert(T::min_int() <= super::trunc_div(pz.as_int(), 2) <= T::max_int());
        }
        Vertex::new(px.over(two), py.over(two), pz.over(two))
    }

    /// The direction of the segment, which this model takes as the origin.
    pub fn vector(&self) -> (r: Vec3<T>)
        ensures
            r.ints() == (0int, 0int, 0int),
    {
        Vec3::zero()
    }

    /// The length of the segment, which this model takes as zero.
    pub fn length(&self) -> (r: T)
        ensures
            r.as_int() == 0,
    {
        T::zero()
    }
}

} // verus!
