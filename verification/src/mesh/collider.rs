//! Tests between mesh-like shapes.
use super::primitive::Primitive;
use crate::base::GeoNum;
use vstd::prelude::*;

verus! {

/// A shape that can be tested against mesh-like shapes.
pub trait Collider<T: GeoNum> {
    fn intersects<P: Primitive<T>>(&self, other: &P) -> bool;

    fn contains<P: Primitive<T>>(&self, other: &P) -> bool;
}

} // verus!
