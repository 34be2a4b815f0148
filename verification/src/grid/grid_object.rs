//! An item together with the position it was placed at.
use crate::base::{GridNum, Vec3};
use vstd::prelude::*;

verus! {

/// What a grid cell holds: the item and the exact position it was added at.
pub struct GridObject<T: GridNum, I> {
    position: Vec3<T>,
    item: I,
}

impl<T: GridNum, I> GridObject<T, I> {
    /// The position the item was placed at.
    pub closed spec fn position_spec(self) -> Vec3<T> {
        self.position
    }

    /// The item itself.
    pub closed spec fn item_spec(self) -> I {
        self.item
    }

    /// The object that holds `item` at `position`.
    pub closed spec fn at(position: Vec3<T>, item: I) -> Self {
        GridObject { position, item }
    }

    /// An object is determined by its position and its item.
    pub proof fn lemma_at(self)
        ensures
            self == Self::at(self.position_spec(), self.item_spec()),
    {
    }

    /// The two parts of `at(position, item)` are `position` and `item`.
    pub proof fn lemma_parts(position: Vec3<T>, item: I)
        ensures
            Self::at(position, item).position_spec() == position,
            Self::at(position, item).item_spec() == item,
    {
    }

    pub fn new(position: Vec3<T>, item: I) -> (r: Self)
        ensures
            r == Self::at(position, item),
    {
        GridObject { position, item }
    }

    pub fn item(&self) -> (r: &I)
        ensures
            *r == self.item_spec(),
    {
        &self.item
    }

    pub fn position(&self) -> (r: Vec3<T>)
        ensures
            r == self.position_spec(),
    {
        self.position
    }
}

} // verus!
