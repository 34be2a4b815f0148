//! Why an item could not be placed.
use crate::base::{GridNum, Vec3};
use vstd::prelude::*;

verus! {

/// The reasons for which `add` refuses an item.
#[derive(Clone, Copy, Debug)]
pub enum GridError<T: GridNum> {
    /// The cell of the given position already holds an item.
    SpaceOccupied(Vec3<T>),
    /// The position lies outside the bounds of the grid.
    OutOfBounds,
}

} // verus!
