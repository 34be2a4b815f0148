//! The interface of a graph whose nodes sit at positions inside a box.
use crate::base::{GridNum, Vec3};
use crate::geom::Cube;
use vstd::prelude::*;

verus! {

/// A set of items, each at a position of its own inside a box.
pub trait Graph<I, T: GridNum>: Cube<T> {
    fn in_bounds(&self, pos: Vec3<T>) -> bool;

    fn add(&mut self, item: I, pos: Vec3<T>) -> bool;

    fn remove(&mut self, pos: Vec3<T>) -> bool;

    fn replace(&mut self, item: I, pos: Vec3<T>) -> bool;

    fn set(&mut self, item: I, pos: Vec3<T>) -> bool;

    fn item(&self, pos: Vec3<T>) -> Option<&I>;

    fn position(&self, item: &I) -> Option<Vec3<T>>;

    fn len(&self) -> usize;
}

} // verus!
