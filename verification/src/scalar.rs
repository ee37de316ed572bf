use vstd::prelude::*;

verus! {

/// The arithmetic a field value must offer.
///
/// Every operation is total and has a specification twin, so that the
/// update equations can be stated exactly over any number system: the
/// executable method returns precisely what its twin names.
pub trait Scalar: Sized + Copy {
    /// The additive identity.
    spec fn zero_value() -> Self;

    /// The multiplicative identity.
    spec fn one_value() -> Self;

    /// `self + rhs`.
    spec fn sum(self, rhs: Self) -> Self;

    /// `self - rhs`.
    spec fn difference(self, rhs: Self) -> Self;

    /// `self * rhs`.
    spec fn product(self, rhs: Self) -> Self;

    /// `self / rhs`.
    spec fn quotient(self, rhs: Self) -> Self;

    /// The non-negative square root of `self`.
    spec fn root(self) -> Self;

    /// `self <= rhs`.
    spec fn at_most(self, rhs: Self) -> bool;

    /// Adding nothing to nothing leaves nothing.
    proof fn law_zero_sum()
        ensures
            Self::zero_value().sum(Self::zero_value()) == Self::zero_value(),
    ;

    /// Taking nothing from nothing leaves nothing.
    proof fn law_zero_difference()
        ensures
            Self::zero_value().difference(Self::zero_value()) == Self::zero_value(),
    ;

    /// Any multiple of zero is zero.
    proof fn law_zero_product(c: Self)
        ensures
            c.product(Self::zero_value()) == Self::zero_value(),
    ;

    fn zero() -> (r: Self)
        ensures
            r == Self::zero_value(),
    ;

    fn one() -> (r: Self)
        ensures
            r == Self::one_value(),
    ;

    fn plus(self, rhs: Self) -> (r: Self)
        ensures
            r == self.sum(rhs),
    ;

    fn minus(self, rhs: Self) -> (r: Self)
        ensures
            r == self.difference(rhs),
    ;

    fn times(self, rhs: Self) -> (r: Self)
        ensures
            r == self.product(rhs),
    ;

    fn over(self, rhs: Self) -> (r: Self)
        ensures
            r == self.quotient(rhs),
    ;

    fn sqrt(self) -> (r: Self)
        ensures
            r == self.root(),
    ;

    fn le(self, rhs: Self) -> (r: bool)
        ensures
            r == self.at_most(rhs),
    ;
}

} // verus!
