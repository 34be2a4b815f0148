//! Shapes described by a few points and lengths.
use crate::base::{OrdNum, Vec3};
use vstd::prelude::*;

verus! {

pub trait Sphere<T: OrdNum> {
    fn center(&self) -> Vec3<T>;

    fn radius(&self) -> T;
}

pub trait Cylinder<T: OrdNum> {
    fn center(&self) -> Vec3<T>;

    fn radius(&self) -> T;

    fn height(&self) -> T;
}

pub trait Torus<T: OrdNum> {
    fn center(&self) -> Vec3<T>;

    fn major(&self) -> T;

    fn minor(&self) -> T;
}

pub trait Triangle<T: OrdNum> {
    fn a(&self) -> Vec3<T>;

    fn b(&self) -> Vec3<T>;

    fn c(&self) -> Vec3<T>;
}

} // verus!
