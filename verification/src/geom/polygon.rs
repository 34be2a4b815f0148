//! Classifications of polygons.
use vstd::prelude::*;

verus! {

/// How the boundary of a polygon bends.
#[derive(Clone, Copy, Debug, PartialEq, Eq, Structural)]
pub enum PolyType {
    Convex,
    Simple,
    Concave,
}

/// The symmetry class of a polygon.
#[derive(Clone, Copy, Debug, PartialEq, Eq, Structural)]
pub enum PolySymmetry {
    Eqiangular,
    Cyclic,
    Isogonal,
    Equilateral,
    Tangential,
    Isotoxal,
    Regular,
}

} // verus!
