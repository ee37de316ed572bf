use vstd::prelude::*;
use crate::error::FdtdError;
use crate::material::MaterialProfile;
use crate::scalar::Scalar;

verus! {

/// What the absorbing boundary keeps between steps: one reflection
/// coefficient per edge, fixed at setup, and per edge the value that the
/// cell next to the edge held after the previous step.
pub struct BoundaryState<T> {
    pub abc_left: T,
    pub abc_right: T,
    pub old_left: T,
    pub old_right: T,
}

/// The reflection coefficient of an edge whose cell has the couplings `cezh`
/// and `chye`: `(x - 1) / (x + 1)` with `x = sqrt(cezh * chye)`.
pub open spec fn mur_coefficient<T: Scalar>(cezh: T, chye: T) -> T {
    let x = cezh.product(chye).root();
    x.difference(T::one_value()).quotient(x.sum(T::one_value()))
}

/// The corrected edge value: `remembered + abc * (neighbor_new - boundary_old)`.
pub open spec fn mur_value<T: Scalar>(remembered: T, abc: T, neighbor_new: T, boundary_old: T) -> T {
    remembered.sum(abc.product(neighbor_new.difference(boundary_old)))
}

/// Computes the reflection coefficient of one edge.
pub fn reflection_coefficient<T: Scalar>(cezh: T, chye: T) -> (abc: T)
    ensures
        abc == mur_coefficient(cezh, chye),
{
    let x: T = cezh.times(chye).sqrt();
    x.minus(T::one()).over(x.plus(T::one()))
}

impl<T: Scalar> BoundaryState<T> {
    /// The state that `profile` determines before the first step.
    pub open spec fn initial(profile: MaterialProfile<T>) -> Self {
        BoundaryState {
            abc_left: mur_coefficient(profile.cezh@[0], profile.chye@[0]),
            abc_right: mur_coefficient(profile.cezh@.last(), profile.chye@.last()),
            old_left: T::zero_value(),
            old_right: T::zero_value(),
        }
    }

    /// Derives both reflection coefficients from the first and the last cell
    /// of the coupling arrays and clears the remembered values. A profile
    /// without a cell on either grid is refused.
    pub fn derive(profile: &MaterialProfile<T>) -> (r: Result<Self, FdtdError>)
        ensures
            (profile.cezh@.len() == 0 || profile.chye@.len() == 0) ==> r == Err::<Self, FdtdError>(
                FdtdError::ConfigurationError,
            ),
            (profile.cezh@.len() > 0 && profile.chye@.len() > 0) ==> r == Ok::<Self, FdtdError>(
                Self::initial(*profile),
            ),
    {
        let ne: usize = profile.cezh.length();
        let nh: usize = profile.chye.length();
        if ne == 0 || nh == 0 {
            return Err(FdtdError::ConfigurationError);
        }
        let abc_left: T = reflection_coefficient(profile.cezh.index(0), profile.chye.index(0));
        let abc_right: T = reflection_coefficient(
            profile.cezh.index(ne - 1),
            profile.chye.index(nh - 1),
        );
        Ok(BoundaryState { abc_left, abc_right, old_left: T::zero(), old_right: T::zero() })
    }

    /// Corrects the left edge: returns the new edge value and remembers
    /// `neighbor_new` for the next step.
    pub fn correct_left(&mut self, boundary_old: T, neighbor_new: T) -> (value: T)
        ensures
            value == mur_value(old(self).old_left, old(self).abc_left, neighbor_new, boundary_old),
            *final(self) == (BoundaryState { old_left: neighbor_new, ..*old(self) }),
    {
        let value: T = self.old_left.plus(self.abc_left.times(neighbor_new.minus(boundary_old)));
        self.old_left = neighbor_new;
        value
    }

    /// Corrects the right edge: returns the new edge value and remembers
    /// `neighbor_new` for the next step.
    pub fn correct_right(&mut self, boundary_old: T, neighbor_new: T) -> (value: T)
        ensures
            value == mur_value(old(self).old_right, old(self).abc_right, neighbor_new, boundary_old),
            *final(self) == (BoundaryState { old_right: neighbor_new, ..*old(self) }),
    {
        let value: T = self.old_right.plus(self.abc_right.times(neighbor_new.minus(boundary_old)));
        self.old_right = neighbor_new;
        value
    }
}

} // verus!
