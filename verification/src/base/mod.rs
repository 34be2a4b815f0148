//! Scalar capabilities shared by every component, and the basic value and
//! index types built on them.
use vstd::prelude::*;

mod convert;
pub mod face;
pub mod line;
pub mod maths;
pub mod point;
pub mod text;
pub mod vertex;

pub use face::{Face, FaceIndex};
pub use line::Line;
pub use point::{Point, PointIndex, Vec3};
pub use vertex::{Vertex, VertexIndex};

verus! {

/// The mathematical integers, under the name by which an implementation of
/// the scalar traits outside this crate writes the type of its model.
pub type Whole = int;

/// Quotient of `a` by `b`, rounded toward zero.
pub open spec fn trunc_div(a: int, b: int) -> int {
    if a >= 0 {
        a / b
    } else {
        -((-a) / b)
    }
}

/// A non-negative dividend never yields a quotient larger in magnitude.
pub proof fn lemma_div_bound(a: int, b: int)
    by (nonlinear_arith)
    requires
        a >= 0,
        b != 0,
    ensures
        -a <= a / b <= a,
{
}

/// Only division by minus one reaches the negated dividend.
pub proof fn lemma_div_strict(a: int, b: int)
    by (nonlinear_arith)
    requires
        a > 0,
        b != 0,
        b != -1,
    ensures
        -a < a / b,
{
}

/// Dividing by minus one negates.
pub proof fn lemma_div_minus_one(a: int)
    by (nonlinear_arith)
    ensures
        a / -1 == -a,
{
}

/// An ordered scalar whose values are modelled by mathematical integers.
///
/// Every operation states its result over `as_int`. Arithmetic is defined
/// only where the exact result is representable; callers keep their values
/// inside that range.
pub trait OrdNum: Copy + Sized {
    /// The integer a value stands for.
    spec fn as_int(self) -> int;

    /// The smallest representable integer.
    spec fn min_int() -> int;

    /// The largest representable integer.
    spec fn max_int() -> int;

    /// Every value lies in the representable range, which holds 0 and 1.
    proof fn lemma_range(x: Self)
        ensures
            Self::min_int() <= x.as_int() <= Self::max_int(),
            Self::min_int() <= 0,
            1 <= Self::max_int(),
    ;

    /// Two values that stand for the same integer are the same value.
    proof fn lemma_injective(x: Self, y: Self)
        requires
            x.as_int() == y.as_int(),
        ensures
            x == y,
    ;

    fn zero() -> (r: Self)
        ensures
            r.as_int() == 0,
    ;

    fn one() -> (r: Self)
        ensures
            r.as_int() == 1,
    ;

    fn plus(self, rhs: Self) -> (r: Self)
        requires
            Self::min_int() <= self.as_int() + rhs.as_int() <= Self::max_int(),
        ensures
            r.as_int() == self.as_int() + rhs.as_int(),
    ;

    fn minus(self, rhs: Self) -> (r: Self)
        requires
            Self::min_int() <= self.as_int() - rhs.as_int() <= Self::max_int(),
        ensures
            r.as_int() == self.as_int() - rhs.as_int(),
    ;

    fn times(self, rhs: Self) -> (r: Self)
        requires
            Self::min_int() <= self.as_int() * rhs.as_int() <= Self::max_int(),
        ensures
            r.as_int() == self.as_int() * rhs.as_int(),
    ;

    /// Division rounded toward zero.
    fn over(self, rhs: Self) -> (r: Self)
        requires
            rhs.as_int() != 0,
            Self::min_int() <= trunc_div(self.as_int(), rhs.as_int()) <= Self::max_int(),
        ensures
            r.as_int() == trunc_div(self.as_int(), rhs.as_int()),
    ;

    /// The product, or `None` exactly when it is not representable.
    fn checked_times(self, rhs: Self) -> (r: Option<Self>)
        ensures
            r is Some <==> Self::min_int() <= self.as_int() * rhs.as_int() <= Self::max_int(),
            r is Some ==> r->0.as_int() == self.as_int() * rhs.as_int(),
    ;

    fn lt(self, rhs: Self) -> (b: bool)
        ensures
            b == (self.as_int() < rhs.as_int()),
    ;

    fn le(self, rhs: Self) -> (b: bool)
        ensures
            b == (self.as_int() <= rhs.as_int()),
    ;

    fn same(self, rhs: Self) -> (b: bool)
        ensures
            b == (self == rhs),
    ;
}

/// A signed integer scalar usable as a grid coordinate.
pub trait GridNum: OrdNum {
    /// The range reaches below zero.
    proof fn lemma_signed()
        ensures
            Self::min_int() < 0,
    ;

    /// The absolute value, where it is representable.
    fn abs(self) -> (r: Self)
        requires
            -self.as_int() <= Self::max_int(),
        ensures
            r.as_int() == if self.as_int() < 0 {
                -self.as_int()
            } else {
                self.as_int()
            },
    ;

    /// The value as a count, or `None` exactly when it is negative or too large.
    fn to_usize(self) -> (r: Option<usize>)
        ensures
            r is Some <==> 0 <= self.as_int() <= usize::MAX,
            r is Some ==> r->0 == self.as_int(),
    ;

    /// The scalar for a count, or `None` exactly when it is too large.
    fn from_usize(n: usize) -> (r: Option<Self>)
        ensures
            r is Some <==> n <= Self::max_int(),
            r is Some ==> r->0.as_int() == n,
    ;
}

/// A signed scalar usable as a mesh coordinate.
pub trait GeoNum: OrdNum {
    fn neg_one() -> (r: Self)
        ensures
            r.as_int() == -1,
    ;

    /// The value written out in decimal.
    fn to_text(self) -> (r: Vec<u8>)
        ensures
            r@ == text::signed_digits(self.as_int()),
    ;
}

impl OrdNum for i64 {
    open spec fn as_int(self) -> int {
        self as int
    }

    open spec fn min_int() -> int {
        i64::MIN as int
    }

    open spec fn max_int() -> int {
        i64::MAX as int
    }

    proof fn lemma_range(x: Self) {
    }

    proof fn lemma_injective(x: Self, y: Self) {
    }

    fn zero() -> (r: Self) {
        0
    }

    fn one() -> (r: Self) {
        1
    }

    fn plus(self, rhs: Self) -> (r: Self) {
        self + rhs
    }

    fn minus(self, rhs: Self) -> (r: Self) {
        self - rhs
    }

    fn times(self, rhs: Self) -> (r: Self) {
        self * rhs
    }

    fn over(self, rhs: Self) -> (r: Self) {
        proof {
            if self >= 0 {
                lemma_div_bound(self as int, rhs as int);
            } else {
                lemma_div_bound(-(self as int), rhs as int);
                if rhs != -1 {
                    lemma_div_strict(-(self as int), rhs as int);
                } else {
                    lemma_div_minus_one(-(self as int));
                }
            }
        }
        self / rhs
    }

    fn checked_times(self, rhs: Self) -> (r: Option<Self>) {
        self.checked_mul(rhs)
    }

    fn lt(self, rhs: Self) -> (b: bool) {
        self < rhs
    }

    fn le(self, rhs: Self) -> (b: bool) {
        self <= rhs
    }

    fn same(self, rhs: Self) -> (b: bool) {
        self == rhs
    }
}

impl OrdNum for i32 {
    open spec fn as_int(self) -> int {
        self as int
    }

    open spec fn min_int() -> int {
        i32::MIN as int
    }

    open spec fn max_int() -> int {
        i32::MAX as int
    }

    proof fn lemma_range(x: Self) {
    }

    proof fn lemma_injective(x: Self, y: Self) {
    }

    fn zero() -> (r: Self) {
        0
    }

    fn one() -> (r: Self) {
        1
    }

    fn plus(self, rhs: Self) -> (r: Self) {
        self + rhs
    }

    fn minus(self, rhs: Self) -> (r: Self) {
        self - rhs
    }

    fn times(self, rhs: Self) -> (r: Self) {
        self * rhs
    }

    fn over(self, rhs: Self) -> (r: Self) {
        proof {
            if self >= 0 {
                lemma_div_bound(self as int, rhs as int);
            } else {
                lemma_div_bound(-(self as int), rhs as int);
                if rhs != -1 {
                    lemma_div_strict(-(self as int), rhs as int);
                } else {
                    lemma_div_minus_one(-(self as int));
                }
            }
        }
        self / rhs
    }

    fn checked_times(self, rhs: Self) -> (r: Option<Self>) {
        self.checked_mul(rhs)
    }

    fn lt(self, rhs: Self) -> (b: bool) {
        self < rhs
    }

    fn le(self, rhs: Self) -> (b: bool) {
        self <= rhs
    }

    fn same(self, rhs: Self) -> (b: bool) {
        self == rhs
    }
}

impl OrdNum for i8 {
    open spec fn as_int(self) -> int {
        self as int
    }

    open spec fn min_int() -> int {
        i8::MIN as int
    }

    open spec fn max_int() -> int {
        i8::MAX as int
    }

    proof fn lemma_range(x: Self) {
    }

    proof fn lemma_injective(x: Self, y: Self) {
    }

    fn zero() -> (r: Self) {
        0
    }

    fn one() -> (r: Self) {
        1
    }

    fn plus(self, rhs: Self) -> (r: Self) {
        self + rhs
    }

    fn minus(self, rhs: Self) -> (r: Self) {
        self - rhs
    }

    fn times(self, rhs: Self) -> (r: Self) {
        self * rhs
    }

    fn over(self, rhs: Self) -> (r: Self) {
        proof {
            if self >= 0 {
                lemma_div_bound(self as int, rhs as int);
            } else {
                lemma_div_bound(-(self as int), rhs as int);
                if rhs != -1 {
                    lemma_div_strict(-(self as int), rhs as int);
                } else {
                    lemma_div_minus_one(-(self as int));
                }
            }
        }
        self / rhs
    }

    fn checked_times(self, rhs: Self) -> (r: Option<Self>) {
        self.checked_mul(rhs)
    }

    fn lt(self, rhs: Self) -> (b: bool) {
        self < rhs
    }

    fn le(self, rhs: Self) -> (b: bool) {
        self <= rhs
    }

    fn same(self, rhs: Self) -> (b: bool) {
        self == rhs
    }
}

impl OrdNum for u64 {
    open spec fn as_int(self) -> int {
        self as int
    }

    open spec fn min_int() -> int {
        u64::MIN as int
    }

    open spec fn max_int() -> int {
        u64::MAX as int
    }

    proof fn lemma_range(x: Self) {
    }

    proof fn lemma_injective(x: Self, y: Self) {
    }

    fn zero() -> (r: Self) {
        0
    }

    fn one() -> (r: Self) {
        1
    }

    fn plus(self, rhs: Self) -> (r: Self) {
        self + rhs
    }

    fn minus(self, rhs: Self) -> (r: Self) {
        self - rhs
    }

    fn times(self, rhs: Self) -> (r: Self) {
        self * rhs
    }

    fn over(self, rhs: Self) -> (r: Self) {
        proof {
            lemma_div_bound(self as int, rhs as int);
        }
        self / rhs
    }

    fn checked_times(self, rhs: Self) -> (r: Option<Self>) {
        self.checked_mul(rhs)
    }

    fn lt(self, rhs: Self) -> (b: bool) {
        self < rhs
    }

    fn le(self, rhs: Self) -> (b: bool) {
        self <= rhs
    }

    fn same(self, rhs: Self) -> (b: bool) {
        self == rhs
    }
}

impl OrdNum for u32 {
    open spec fn as_int(self) -> int {
        self as int
    }

    open spec fn min_int() -> int {
        u32::MIN as int
    }

    open spec fn max_int() -> int {
        u32::MAX as int
    }

    proof fn lemma_range(x: Self) {
    }

    proof fn lemma_injective(x: Self, y: Self) {
    }

    fn zero() -> (r: Self) {
        0
    }

    fn one() -> (r: Self) {
        1
    }

    fn plus(self, rhs: Self) -> (r: Self) {
        self + rhs
    }

    fn minus(self, rhs: Self) -> (r: Self) {
        self - rhs
    }

    fn times(self, rhs: Self) -> (r: Self) {
        self * rhs
    }

    fn over(self, rhs: Self) -> (r: Self) {
        proof {
            lemma_div_bound(self as int, rhs as int);
        }
        self / rhs
    }

    fn checked_times(self, rhs: Self) -> (r: Option<Self>) {
        self.checked_mul(rhs)
    }

    fn lt(self, rhs: Self) -> (b: bool) {
        self < rhs
    }

    fn le(self, rhs: Self) -> (b: bool) {
        self <= rhs
    }

    fn same(self, rhs: Self) -> (b: bool) {
        self == rhs
    }
}

impl OrdNum for u8 {
    open spec fn as_int(self) -> int {
        self as int
    }

    open spec fn min_int() -> int {
        u8::MIN as int
    }

    open spec fn max_int() -> int {
        u8::MAX as int
    }

    proof fn lemma_range(x: Self) {
    }

    proof fn lemma_injective(x: Self, y: Self) {
    }

    fn zero() -> (r: Self) {
        0
    }

    fn one() -> (r: Self) {
        1
    }

    fn plus(self, rhs: Self) -> (r: Self) {
        self + rhs
    }

    fn minus(self, rhs: Self) -> (r: Self) {
        self - rhs
    }

    fn times(self, rhs: Self) -> (r: Self) {
        self * rhs
    }

    fn over(self, rhs: Self) -> (r: Self) {
        proof {
            lemma_div_bound(self as int, rhs as int);
        }
        self / rhs
    }

    fn checked_times(self, rhs: Self) -> (r: Option<Self>) {
        self.checked_mul(rhs)
    }

    fn lt(self, rhs: Self) -> (b: bool) {
        self < rhs
    }

    fn le(self, rhs: Self) -> (b: bool) {
        self <= rhs
    }

    fn same(self, rhs: Self) -> (b: bool) {
        self == rhs
    }
}

impl OrdNum for usize {
    open spec fn as_int(self) -> int {
        self as int
    }

    open spec fn min_int() -> int {
        usize::MIN as int
    }

    open spec fn max_int() -> int {
        usize::MAX as int
    }

    proof fn lemma_range(x: Self) {
    }

    proof fn lemma_injective(x: Self, y: Self) {
    }

    fn zero() -> (r: Self) {
        0
    }

    fn one() -> (r: Self) {
        1
    }

    fn plus(self, rhs: Self) -> (r: Self) {
        self + rhs
    }

    fn minus(self, rhs: Self) -> (r: Self) {
        self - rhs
    }

    fn times(self, rhs: Self) -> (r: Self) {
        self * rhs
    }

    fn over(self, rhs: Self) -> (r: Self) {
        proof {
            lemma_div_bound(self as int, rhs as int);
        }
        self / rhs
    }

    fn checked_times(self, rhs: Self) -> (r: Option<Self>) {
        self.checked_mul(rhs)
    }

    fn lt(self, rhs: Self) -> (b: bool) {
        self < rhs
    }

    fn le(self, rhs: Self) -> (b: bool) {
        self <= rhs
    }

    fn same(self, rhs: Self) -> (b: bool) {
        self == rhs
    }
}

impl GridNum for i64 {
    proof fn lemma_signed() {
    }

    fn abs(self) -> (r: Self) {
        convert::i64_abs(self)
    }

    fn to_usize(self) -> (r: Option<usize>) {
        convert::i64_to_usize(self)
    }

    fn from_usize(n: usize) -> (r: Option<Self>) {
        convert::i64_from_usize(n)
    }
}

impl GridNum for i32 {
    proof fn lemma_signed() {
    }

    fn abs(self) -> (r: Self) {
        convert::i32_abs(self)
    }

    fn to_usize(self) -> (r: Option<usize>) {
        convert::i32_to_usize(self)
    }

    fn from_usize(n: usize) -> (r: Option<Self>) {
        convert::i32_from_usize(n)
    }
}

impl GridNum for i8 {
    proof fn lemma_signed() {
    }

    fn abs(self) -> (r: Self) {
        convert::i8_abs(self)
    }

    fn to_usize(self) -> (r: Option<usize>) {
        convert::i8_to_usize(self)
    }

    fn from_usize(n: usize) -> (r: Option<Self>) {
        convert::i8_from_usize(n)
    }
}

impl GeoNum for i64 {
    fn neg_one() -> (r: Self) {
        -1
    }

    fn to_text(self) -> (r: Vec<u8>) {
        if self < 0 {
            let magnitude: u64 = (-(self + 1)) as u64 + 1;
            let mut out: Vec<u8> = Vec::new();
            out.push(45u8);
            let number = text::decimal(magnitude);
            text::append(&mut out, number.as_slice());
            assert(out@ =~= seq![45u8] + number@);
            out
        } else {
            text::decimal(self as u64)
        }
    }
}

impl GeoNum for i32 {
    fn neg_one() -> (r: Self) {
        -1
    }

    fn to_text(self) -> (r: Vec<u8>) {
        if self < 0 {
            let magnitude: u64 = (-(self + 1)) as u64 + 1;
            let mut out: Vec<u8> = Vec::new();
            out.push(45u8);
            let number = text::decimal(magnitude);
            text::append(&mut out, number.as_slice());
            assert(out@ =~= seq![45u8] + number@);
            out
        } else {
            text::decimal(self as u64)
        }
    }
}

} // verus!
