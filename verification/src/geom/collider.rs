//! Containment and intersection tests between boxes.
use super::shapes::Cube;
use crate::base::{OrdNum, Vec3};
use vstd::prelude::*;

verus! {

/// Whether the box from `min` to `max` holds the point `p`, borders included.
pub open spec fn spans_point(min: (int, int, int), max: (int, int, int), p: (int, int, int)) -> bool {
    &&& min.0 <= p.0 <= max.0
    &&& min.1 <= p.1 <= max.1
    &&& min.2 <= p.2 <= max.2
}

/// Whether the box from `min` to `max` encloses the box from `other_min` to
/// `other_max` on all three axes.
pub open spec fn encloses(
    min: (int, int, int),
    max: (int, int, int),
    other_min: (int, int, int),
    other_max: (int, int, int),
) -> bool {
    &&& min.0 <= other_min.0 && max.0 >= other_max.0
    &&& min.1 <= other_min.1 && max.1 >= other_max.1
    &&& min.2 <= other_min.2 && max.2 >= other_max.2
}

/// Whether the first box lies wholly past the second, or wholly before it,
/// on some axis.
pub open spec fn separated(
    min: (int, int, int),
    max: (int, int, int),
    other_min: (int, int, int),
    other_max: (int, int, int),
) -> bool {
    ||| min.0 > other_max.0 || max.0 < other_min.0
    ||| min.1 > other_max.1 || max.1 < other_min.1
    ||| min.2 > other_max.2 || max.2 < other_min.2
}

/// Whether the two boxes overlap on all three axes.
pub open spec fn overlaps(
    min: (int, int, int),
    max: (int, int, int),
    other_min: (int, int, int),
    other_max: (int, int, int),
) -> bool {
    !separated(min, max, other_min, other_max)
}

/// A box that can be tested against other boxes and against points.
pub trait BoxCollider<T: OrdNum>: Cube<T> {
    fn intersects<C: Cube<T>>(&self, other: &C) -> (b: bool)
        ensures
            b == overlaps(
                self.min_corner().ints(),
                self.max_corner().ints(),
                other.min_corner().ints(),
                other.max_corner().ints(),
            ),
    ;

    fn contains<C: Cube<T>>(&self, other: &C) -> (b: bool)
        ensures
            b == encloses(
                self.min_corner().ints(),
                self.max_corner().ints(),
                other.min_corner().ints(),
                other.max_corner().ints(),
            ),
    ;

    fn contains_point(&self, pos: Vec3<T>) -> (b: bool)
        ensures
            b == spans_point(self.min_corner().ints(), self.max_corner().ints(), pos.ints()),
    ;
}

} // verus!
