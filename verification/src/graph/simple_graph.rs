//! A graph stored as a dense three-dimensional array.
use crate::base::{GridNum, PointIndex};
use crate::geom::BoundingBox;
use vstd::prelude::*;

verus! {

/// A dense array of optional point indices over a box.
pub struct SimpleGraph<T: GridNum> {
    _grid_array: Vec<Vec<Vec<Option<PointIndex>>>>,
    _bounds: BoundingBox<T>,
}

} // verus!
