use geogrid::base::maths::{inverse_lerp, lerp, lerpc};
use geogrid::base::OrdNum;

/// A fractional scalar for the interpolation tests.
#[derive(Clone, Copy, Debug, PartialEq)]
struct Real(f64);

impl OrdNum for Real {
    fn as_int(self) -> geogrid::base::Whole {
        unreachable!()
    }

    fn min_int() -> geogrid::base::Whole {
        unreachable!()
    }

    fn max_int() -> geogrid::base::Whole {
        unreachable!()
    }

    fn lemma_range(_: Self) {}

    fn lemma_injective(_: Self, _: Self) {}

    fn zero() -> Self {
        Real(0.)
    }

    fn one() -> Self {
        Real(1.)
    }

    fn plus(self, rhs: Self) -> Self {
        Real(self.0 + rhs.0)
    }

    fn minus(self, rhs: Self) -> Self {
        Real(self.0 - rhs.0)
    }

    fn times(self, rhs: Self) -> Self {
        Real(self.0 * rhs.0)
    }

    fn over(self, rhs: Self) -> Self {
        Real(self.0 / rhs.0)
    }

    fn checked_times(self, rhs: Self) -> Option<Self> {
        Some(Real(self.0 * rhs.0))
    }

    fn lt(self, rhs: Self) -> bool {
        self.0 < rhs.0
    }

    fn le(self, rhs: Self) -> bool {
        self.0 <= rhs.0
    }

    fn same(self, rhs: Self) -> bool {
        self.0 == rhs.0
    }
}

#[test]
fn lerp_test() {
    assert_eq!(5., lerp(Real(0.), Real(10.), Real(0.5)).0);
}

#[test]
fn lerp_of_equal_ends_is_that_end() {
    assert_eq!(lerp(7i64, 7, 1000), 7);
}

#[test]
fn lerp_runs_from_the_smaller_end() {
    assert_eq!(lerp(0i64, 10, 3), 30);
    assert_eq!(lerp(10i64, 0, 3), 30);
    assert_eq!(lerp(2i32, 5, 1), 5);
    assert_eq!(lerp(5i32, 2, 0), 2);
    assert_eq!(lerp(-4i8, 4, 2), 12);
}

#[test]
fn lerpc_bounds_the_amount() {
    assert_eq!(lerpc(0i64, 10, 5), 10);
    assert_eq!(lerpc(0i64, 10, -5), 0);
    assert_eq!(lerpc(10i64, 0, 1), 10);
    assert_eq!(lerpc(3u8, 9, 0), 3);
    assert_eq!(lerpc(Real(0.), Real(10.), Real(0.25)).0, 2.5);
    assert_eq!(lerpc(Real(0.), Real(10.), Real(7.)).0, 10.);
}

#[test]
fn inverse_lerp_rounds_toward_zero() {
    assert_eq!(inverse_lerp(0i64, 10, 25), 2);
    assert_eq!(inverse_lerp(0i64, 10, -25), -2);
    assert_eq!(inverse_lerp(0i64, 4, 3), 0);
    assert_eq!(inverse_lerp(10i64, 0, 25), -1);
    assert_eq!(inverse_lerp(Real(0.), Real(10.), Real(5.)).0, 0.5);
}

#[test]
fn integer_scalars_compute_exactly() {
    assert_eq!(<i64 as OrdNum>::zero(), 0);
    assert_eq!(<u8 as OrdNum>::one(), 1);
    assert_eq!(7i32.plus(5), 12);
    assert_eq!(7i32.minus(9), -2);
    assert_eq!(7usize.times(6), 42);
    assert_eq!((-7i8).over(2), -3);
    assert_eq!(7i8.over(-2), -3);
    assert_eq!(100i8.checked_times(2), None);
    assert_eq!(10i8.checked_times(-2), Some(-20));
    assert!(3u32.lt(4));
    assert!(!4u32.lt(4));
    assert!(4u64.le(4));
    assert!(4u64.same(4));
    assert!(!4u64.same(5));
}
