//! Linear interpolation on ordered scalars.
use super::OrdNum;
use vstd::prelude::*;

verus! {

/// The point `amount` of the way from the smaller of `a` and `b` to the larger.
pub open spec fn lerp_spec(a: int, b: int, amount: int) -> int {
    if a == b {
        a
    } else if a > b {
        b + (a - b) * amount
    } else {
        a + (b - a) * amount
    }
}

/// The distance between `a` and `b`.
pub open spec fn span(a: int, b: int) -> int {
    if a > b {
        a - b
    } else {
        b - a
    }
}

/// `amount` bounded to the interval from 0 to 1.
pub open spec fn clamp_unit(amount: int) -> int {
    if amount < 0 {
        0
    } else if amount > 1 {
        1
    } else {
        amount
    }
}

/// How far `v` lies along the way from `a` to `b`, rounded toward zero.
pub open spec fn inverse_lerp_spec(a: int, b: int, v: int) -> int {
    super::trunc_div(v - a, b - a)
}

/// Whether `v` is representable in `T`.
pub open spec fn fits<T: OrdNum>(v: int) -> bool {
    T::min_int() <= v <= T::max_int()
}

/// Interpolates between `a` and `b`: at `amount` 0 the smaller of the two,
/// at 1 the larger.
pub fn lerp<T: OrdNum>(a: T, b: T, amount: T) -> (r: T)
    requires
        a != b ==> {
            let range = span(a.as_int(), b.as_int());
            &&& fits::<T>(range)
            &&& fits::<T>(range * amount.as_int())
            &&& fits::<T>(lerp_spec(a.as_int(), b.as_int(), amount.as_int()))
        },
    ensures
        r.as_int() == lerp_spec(a.as_int(), b.as_int(), amount.as_int()),
{
    if a.same(b) {
        return a;
    }
    proof {
        if a.as_int() == b.as_int() {
            T::lemma_injective(a, b);
        }
    }
    if b.lt(a) {
        let range = a.minus(b);
        b.plus(range.times(amount))
    } else {
        let range = b.minus(a);
        a.plus(range.times(amount))
    }
}

/// Interpolates between `a` and `b` with `amount` first bounded to the
/// interval from 0 to 1.
pub fn lerpc<T: OrdNum>(a: T, b: T, amount: T) -> (r: T)
    requires
        fits::<T>(span(a.as_int(), b.as_int())),
    ensures
        r.as_int() == lerp_spec(a.as_int(), b.as_int(), clamp_unit(amount.as_int())),
{
    let clamped = if amount.lt(T::zero()) {
        T::zero()
    } else if T::one().lt(amount) {
        T::one()
    } else {
        amount
    };
    proof {
        T::lemma_range(a);
        T::lemma_range(b);
        let c = clamped.as_int();
        assert(c == 0 || c == 1);
        let range = span(a.as_int(), b.as_int());
        assert(range * c == 0 || range * c == range) by (nonlinear_arith)
            requires
                c == 0 || c == 1,
        ;
    }
    lerp(a, b, clamped)
}

/// How far `v` lies along the way from `a` to `b`, rounded toward zero.
pub fn inverse_lerp<T: OrdNum>(a: T, b: T, v: T) -> (r: T)
    requires
        a != b,
        fits::<T>(v.as_int() - a.as_int()),
        fits::<T>(b.as_int() - a.as_int()),
        fits::<T>(inverse_lerp_spec(a.as_int(), b.as_int(), v.as_int())),
    ensures
        r.as_int() == inverse_lerp_spec(a.as_int(), b.as_int(), v.as_int()),
{
    proof {
        if a.as_int() == b.as_int() {
            T::lemma_injective(a, b);
        }
    }
    v.minus(a).over(b.minus(a))
}

} // verus!
