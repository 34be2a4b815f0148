//! The measure of a shape.
use crate::base::OrdNum;
use vstd::prelude::*;

verus! {

/// A shape with a measure.
pub trait Area<T: OrdNum> {
    /// The measure as an integer.
    spec fn area_spec(&self) -> int;

    /// Whether the measure can be computed in `T` without leaving its range.
    spec fn area_defined(&self) -> bool;

    fn area(&self) -> (r: T)
        requires
            self.area_defined(),
        ensures
            r.as_int() == self.area_spec(),
    ;
}

} // verus!
