//! Shapes described by their corners.
use crate::base::{OrdNum, Vec3};
use vstd::prelude::*;

verus! {

/// An axis-aligned box given by two corners.
pub trait Cube<T: OrdNum> {
    /// The corner with the smallest coordinates.
    spec fn min_corner(&self) -> Vec3<T>;

    /// The corner with the largest coordinates.
    spec fn max_corner(&self) -> Vec3<T>;

    fn min(&self) -> (r: Vec3<T>)
        ensures
            r == self.min_corner(),
    ;

    fn max(&self) -> (r: Vec3<T>)
        ensures
            r == self.max_corner(),
    ;
}

} // verus!
