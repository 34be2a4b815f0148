//! The axis-aligned bounding box.
use super::area::Area;
use super::collider::BoxCollider;
use super::shapes::Cube;
use crate::base::maths;
use crate::base::{OrdNum, Vec3};
use vstd::prelude::*;

verus! {

/// An axis-aligned box over two corners, stored as given.
///
/// The derived quantities are meaningful where `min` is at most `max` on
/// every axis; neither corner is checked or reordered.
#[derive(Clone, Copy, Debug)]
pub struct BoundingBox<T: OrdNum> {
    min: Vec3<T>,
    max: Vec3<T>,
}

impl<T: OrdNum> BoundingBox<T> {
    pub fn new(min: Vec3<T>, max: Vec3<T>) -> (r: Self)
        ensures
            r.min_corner() == min,
            r.max_corner() == max,
    {
        BoundingBox { min, max }
    }

    /// The extent along x; negative where the corners are out of order.
    pub open spec fn width_spec(self) -> int {
        self.max_corner().x.as_int() - self.min_corner().x.as_int()
    }

    /// The extent along y; negative where the corners are out of order.
    pub open spec fn height_spec(self) -> int {
        self.max_corner().y.as_int() - self.min_corner().y.as_int()
    }

    /// The extent along z; negative where the corners are out of order.
    pub open spec fn depth_spec(self) -> int {
        self.max_corner().z.as_int() - self.min_corner().z.as_int()
    }

    /// Whether `min` is at most `max` on every axis.
    pub open spec fn ordered(self) -> bool {
        &&& self.width_spec() >= 0
        &&& self.height_spec() >= 0
        &&& self.depth_spec() >= 0
    }

    pub fn width(&self) -> (r: T)
        requires
            maths::fits::<T>(self.width_spec()),
        ensures
            r.as_int() == self.width_spec(),
    {
        self.max.x.minus(self.min.x)
    }

    pub fn height(&self) -> (r: T)
        requires
            maths::fits::<T>(self.height_spec()),
        ensures
            r.as_int() == self.height_spec(),
    {
        self.max.y.minus(self.min.y)
    }

    pub fn depth(&self) -> (r: T)
        requires
            maths::fits::<T>(self.depth_spec()),
        ensures
            r.as_int() == self.depth_spec(),
    {
        self.max.z.minus(self.min.z)
    }

    /// Interpolates across the x extent, `amount` bounded to 0 and 1.
    pub fn lerp_x(&self, amount: T) -> (r: T)
        requires
            maths::fits::<T>(maths::span(self.min_corner().x.as_int(), self.max_corner().x.as_int())),
        ensures
            r.as_int() == maths::lerp_spec(
                self.min_corner().x.as_int(),
                self.max_corner().x.as_int(),
                maths::clamp_unit(amount.as_int()),
            ),
    {
        maths::lerpc(self.min.x, self.max.x, amount)
    }

    /// Interpolates across the y extent, `amount` bounded to 0 and 1.
    pub fn lerp_y(&self, amount: T) -> (r: T)
        requires
            maths::fits::<T>(maths::span(self.min_corner().y.as_int(), self.max_corner().y.as_int())),
        ensures
            r.as_int() == maths::lerp_spec(
                self.min_corner().y.as_int(),
                self.max_corner().y.as_int(),
                maths::clamp_unit(amount.as_int()),
            ),
    {
        maths::lerpc(self.min.y, self.max.y, amount)
    }

    /// Interpolates across the z extent, `amount` bounded to 0 and 1.
    pub fn lerp_z(&self, amount: T) -> (r: T)
        requires
            maths::fits::<T>(maths::span(self.min_corner().z.as_int(), self.max_corner().z.as_int())),
        ensures
            r.as_int() == maths::lerp_spec(
                self.min_corner().z.as_int(),
                self.max_corner().z.as_int(),
                maths::clamp_unit(amount.as_int()),
            ),
    {
        maths::lerpc(self.min.z, self.max.z, amount)
    }

    /// Whether `inverse_lerp` can be computed for `pos` along one axis.
    pub open spec fn axis_invertible(lo: T, hi: T, v: T) -> bool {
        &&& lo != hi
        &&& maths::fits::<T>(v.as_int() - lo.as_int())
        &&& maths::fits::<T>(hi.as_int() - lo.as_int())
        &&& maths::fits::<T>(maths::inverse_lerp_spec(lo.as_int(), hi.as_int(), v.as_int()))
    }

    /// How far `pos` lies across the box on each axis, rounded toward zero.
    pub fn inverse_lerp(&self, pos: Vec3<T>) -> (r: Vec3<T>)
        requires
            Self::axis_invertible(self.min_corner().x, self.max_corner().x, pos.x),
            Self::axis_invertible(self.min_corner().y, self.max_corner().y, pos.y),
            Self::axis_invertible(self.min_corner().z, self.max_corner().z, pos.z),
        ensures
            r.x.as_int() == maths::inverse_lerp_spec(
                self.min_corner().x.as_int(),
                self.max_corner().x.as_int(),
                pos.x.as_int(),
            ),
            r.y.as_int() == maths::inverse_lerp_spec(
                self.min_corner().y.as_int(),
                self.max_corner().y.as_int(),
                pos.y.as_int(),
            ),
            r.z.as_int() == maths::inverse_lerp_spec(
                self.min_corner().z.as_int(),
                self.max_corner().z.as_int(),
                pos.z.as_int(),
            ),
    {
        Vec3::new(
            maths::inverse_lerp(self.min.x, self.max.x, pos.x),
            maths::inverse_lerp(self.min.y, self.max.y, pos.y),
            maths::inverse_lerp(self.min.z, self.max.z, pos.z),
        )
    }
}

impl<T: OrdNum> Cube<T> for BoundingBox<T> {
    closed spec fn min_corner(&self) -> Vec3<T> {
        self.min
    }

    closed spec fn max_corner(&self) -> Vec3<T> {
        self.max
    }

    fn min(&self) -> (r: Vec3<T>) {
        self.min
    }

    fn max(&self) -> (r: Vec3<T>) {
        self.max
    }
}

impl<T: OrdNum> BoxCollider<T> for BoundingBox<T> {
    fn intersects<C: Cube<T>>(&self, other: &C) -> (b: bool) {
        let omin = other.min();
        let omax = other.max();
        let c1 = omax.x.lt(self.min.x);
        let c2 = self.max.x.lt(omin.x);
        let c3 = omax.y.lt(self.min.y);
        let c4 = self.max.y.lt(omin.y);
        let c5 = omax.z.lt(self.min.z);
        let c6 = self.max.z.lt(omin.z);
        !c1 && !c2 && !c3 && !c4 && !c5 && !c6
    }

    fn contains<C: Cube<T>>(&self, other: &C) -> (b: bool) {
        let omin = other.min();
        let omax = other.max();
        let c1 = self.min.x.le(omin.x);
        let c2 = omax.x.le(self.max.x);
        let c3 = self.min.y.le(omin.y);
        let c4 = omax.y.le(self.max.y);
        let c5 = self.min.z.le(omin.z);
        let c6 = omax.z.le(self.max.z);
        c1 && c2 && c3 && c4 && c5 && c6
    }

    fn contains_point(&self, pos: Vec3<T>) -> (b: bool) {
        let c1 = self.min.x.le(pos.x);
        let c2 = pos.x.le(self.max.x);
        let c3 = self.min.y.le(pos.y);
        let c4 = pos.y.le(self.max.y);
        let c5 = self.min.z.le(pos.z);
        let c6 = pos.z.le(self.max.z);
        c1 && c2 && c3 && c4 && c5 && c6
    }
}

impl<T: OrdNum> Area<T> for BoundingBox<T> {
    open spec fn area_spec(&self) -> int {
        self.height_spec() * self.width_spec() * self.depth_spec()
    }

    open spec fn area_defined(&self) -> bool {
        &&& maths::fits::<T>(self.width_spec())
        &&& maths::fits::<T>(self.height_spec())
        &&& maths::fits::<T>(self.depth_spec())
        &&& maths::fits::<T>(self.height_spec() * self.width_spec())
        &&& maths::fits::<T>(self.height_spec() * self.width_spec() * self.depth_spec())
    }

    fn area(&self) -> (r: T) {
        self.height().times(self.width()).times(self.depth())
    }
}

} // verus!
