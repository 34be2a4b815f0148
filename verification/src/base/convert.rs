//! Conversions between grid scalars and counts, done by the `num` crate.
use vstd::prelude::*;

verus! {

/// `num::Signed::abs` on `i64`: the negation of a negative value, any other
/// value unchanged. The smallest value has no negation and is left out.
#[verifier::external_body]
pub(crate) fn i64_abs(x: i64) -> (r: i64)
    requires
        x != i64::MIN,
    ensures
        r == if x < 0 {
            -x
        } else {
            x as int
        },
{
    num::Signed::abs(&x)
}

/// `num::ToPrimitive::to_usize` on `i64`: the same number as a `usize` when
/// it is non-negative and fits, `None` otherwise.
#[verifier::external_body]
pub(crate) fn i64_to_usize(x: i64) -> (r: Option<usize>)
    ensures
        r is Some <==> 0 <= x <= usize::MAX,
        r is Some ==> r->0 == x,
{
    num::ToPrimitive::to_usize(&x)
}

/// `num::FromPrimitive::from_usize` for `i64`: the same number as an `i64`
/// when it fits, `None` otherwise.
#[verifier::external_body]
pub(crate) fn i64_from_usize(n: usize) -> (r: Option<i64>)
    ensures
        r is Some <==> n <= i64::MAX,
        r is Some ==> r->0 == n,
{
    num::FromPrimitive::from_usize(n)
}

/// `num::Signed::abs` on `i32`: the negation of a negative value, any other
/// value unchanged. The smallest value has no negation and is left out.
#[verifier::external_body]
pub(crate) fn i32_abs(x: i32) -> (r: i32)
    requires
        x != i32::MIN,
    ensures
        r == if x < 0 {
            -x
        } else {
            x as int
        },
{
    num::Signed::abs(&x)
}

/// `num::ToPrimitive::to_usize` on `i32`: the same number as a `usize` when
/// it is non-negative and fits, `None` otherwise.
#[verifier::external_body]
pub(crate) fn i32_to_usize(x: i32) -> (r: Option<usize>)
    ensures
        r is Some <==> 0 <= x <= usize::MAX,
        r is Some ==> r->0 == x,
{
    num::ToPrimitive::to_usize(&x)
}

/// `num::FromPrimitive::from_usize` for `i32`: the same number as an `i32`
/// when it fits, `None` otherwise.
#[verifier::external_body]
pub(crate) fn i32_from_usize(n: usize) -> (r: Option<i32>)
    ensures
        r is Some <==> n <= i32::MAX,
        r is Some ==> r->0 == n,
{
    num::FromPrimitive::from_usize(n)
}

/// `num::Signed::abs` on `i8`: the negation of a negative value, any other
/// value unchanged. The smallest value has no negation and is left out.
#[verifier::external_body]
pub(crate) fn i8_abs(x: i8) -> (r: i8)
    requires
        x != i8::MIN,
    ensures
        r == if x < 0 {
            -x
        } else {
            x as int
        },
{
    num::Signed::abs(&x)
}

/// `num::ToPrimitive::to_usize` on `i8`: the same number as a `usize` when
/// it is non-negative and fits, `None` otherwise.
#[verifier::external_body]
pub(crate) fn i8_to_usize(x: i8) -> (r: Option<usize>)
    ensures
        r is Some <==> 0 <= x <= usize::MAX,
        r is Some ==> r->0 == x,
{
    num::ToPrimitive::to_usize(&x)
}

/// `num::FromPrimitive::from_usize` for `i8`: the same number as an `i8`
/// when it fits, `None` otherwise.
#[verifier::external_body]
pub(crate) fn i8_from_usize(n: usize) -> (r: Option<i8>)
    ensures
        r is Some <==> n <= i8::MAX,
        r is Some ==> r->0 == n,
{
    num::FromPrimitive::from_usize(n)
}

} // verus!
