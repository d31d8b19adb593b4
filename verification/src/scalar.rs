//! The numeric capability that every scalar of a controller provides.

use std::time::Duration;
use vstd::prelude::*;

verus! {

/// Arithmetic, ordering, five constants and a conversion from an elapsed time.
///
/// Each executable operation returns exactly what its specification function
/// names, so an implementation has to be a function of its arguments. Nothing
/// else is demanded: the operations need not be exact, associative or total
/// in the mathematical sense, which is what lets rounding scalars qualify.
pub trait Float: Copy + Sized {
    /// The constant minus one.
    spec fn negative_spec() -> Self;

    /// The constant two.
    spec fn double_spec() -> Self;

    /// The constant one.
    spec fn one_spec() -> Self;

    /// The constant one half.
    spec fn half_spec() -> Self;

    /// The constant zero.
    spec fn zero_spec() -> Self;

    /// The number of seconds, fractions included, that `dur` lasts.
    spec fn from_duration_spec(dur: Duration) -> Self;

    /// The sum `self + rhs`.
    spec fn add_spec(self, rhs: Self) -> Self;

    /// The difference `self - rhs`.
    spec fn sub_spec(self, rhs: Self) -> Self;

    /// The product `self * rhs`.
    spec fn mul_spec(self, rhs: Self) -> Self;

    /// The quotient `self / rhs`.
    spec fn div_spec(self, rhs: Self) -> Self;

    /// Whether `self` is strictly below `rhs`.
    spec fn lt_spec(self, rhs: Self) -> bool;

    fn negative() -> (r: Self)
        ensures
            r == Self::negative_spec(),
    ;

    fn double() -> (r: Self)
        ensures
            r == Self::double_spec(),
    ;

    fn one() -> (r: Self)
        ensures
            r == Self::one_spec(),
    ;

    fn half() -> (r: Self)
        ensures
            r == Self::half_spec(),
    ;

    fn zero() -> (r: Self)
        ensures
            r == Self::zero_spec(),
    ;

    fn from_duration(dur: &Duration) -> (r: Self)
        ensures
            r == Self::from_duration_spec(*dur),
    ;

    fn add(self, rhs: Self) -> (r: Self)
        ensures
            r == self.add_spec(rhs),
    ;

    fn sub(self, rhs: Self) -> (r: Self)
        ensures
            r == self.sub_spec(rhs),
    ;

    fn mul(self, rhs: Self) -> (r: Self)
        ensures
            r == self.mul_spec(rhs),
    ;

    fn div(self, rhs: Self) -> (r: Self)
        ensures
            r == self.div_spec(rhs),
    ;

    fn lt(self, rhs: Self) -> (r: bool)
        ensures
            r == self.lt_spec(rhs),
    ;
}

} // verus!
