use vstd::prelude::*;
use crate::error::FdtdError;
use crate::field::OneDField;
use crate::scalar::Scalar;

verus! {

/// A trailing absorbing layer: it begins at cell `start` and damps with the
/// coefficient `loss`.
pub struct LossLayer<T> {
    pub start: usize,
    pub loss: T,
}

/// The physical description of the axis: free space up to
/// `dielectric_boundary`, a dielectric half-space from there on, and
/// optionally a lossy layer at the far end.
pub struct MaterialConfig<T> {
    /// Number of electric-field cells.
    pub grid_size: usize,
    /// Distance between neighbouring cells.
    pub cell_spacing: T,
    /// Characteristic impedance of free space.
    pub impedance: T,
    /// First cell of the dielectric half-space.
    pub dielectric_boundary: usize,
    /// Relative permittivity of the dielectric.
    pub relative_permittivity: T,
    /// The absorbing layer, where there is one.
    pub loss_layer: Option<LossLayer<T>>,
}

/// The four per-cell coefficient arrays of the update equations: `ceze` and
/// `cezh` lie on the electric grid, `chyh` and `chye` on the magnetic grid.
pub struct MaterialProfile<T> {
    pub ceze: OneDField<T>,
    pub cezh: OneDField<T>,
    pub chyh: OneDField<T>,
    pub chye: OneDField<T>,
}

/// The factor by which a lossy cell keeps its own field: `(1 - loss) / (1 + loss)`.
pub open spec fn retention<T: Scalar>(loss: T) -> T {
    T::one_value().difference(loss).quotient(T::one_value().sum(loss))
}

/// A coupling coefficient weakened by a lossy cell: `coupling / (1 + loss)`.
pub open spec fn damped<T: Scalar>(coupling: T, loss: T) -> T {
    coupling.quotient(T::one_value().sum(loss))
}

impl<T: Scalar> MaterialConfig<T> {
    /// Whether cell `m` lies in the absorbing layer.
    pub open spec fn is_lossy(self, m: int) -> bool {
        match self.loss_layer {
            Some(layer) => m >= layer.start,
            None => false,
        }
    }

    /// The loss coefficient of the absorbing layer; only meaningful where
    /// there is one.
    pub open spec fn loss(self) -> T {
        match self.loss_layer {
            Some(layer) => layer.loss,
            None => T::zero_value(),
        }
    }

    /// Coupling from the magnetic to the electric field in a lossless cell:
    /// the impedance in free space, the impedance over the relative
    /// permittivity in the dielectric.
    pub open spec fn electric_coupling(self, m: int) -> T {
        if m < self.dielectric_boundary {
            self.impedance
        } else {
            self.impedance.quotient(self.relative_permittivity)
        }
    }

    /// Coupling from the electric to the magnetic field in a lossless cell.
    pub open spec fn magnetic_coupling(self) -> T {
        T::one_value().quotient(self.impedance)
    }

    pub open spec fn ceze_at(self, m: int) -> T {
        if self.is_lossy(m) {
            retention(self.loss())
        } else {
            T::one_value()
        }
    }

    pub open spec fn cezh_at(self, m: int) -> T {
        if self.is_lossy(m) {
            damped(self.electric_coupling(m), self.loss())
        } else {
            self.electric_coupling(m)
        }
    }

    pub open spec fn chyh_at(self, m: int) -> T {
        if self.is_lossy(m) {
            retention(self.loss())
        } else {
            T::one_value()
        }
    }

    pub open spec fn chye_at(self, m: int) -> T {
        if self.is_lossy(m) {
            damped(self.magnetic_coupling(), self.loss())
        } else {
            self.magnetic_coupling()
        }
    }

    /// The profile that this description determines.
    pub open spec fn describes(self, profile: MaterialProfile<T>) -> bool {
        &&& profile.ceze@ == Seq::new(self.grid_size as nat, |m: int| self.ceze_at(m))
        &&& profile.cezh@ == Seq::new(self.grid_size as nat, |m: int| self.cezh_at(m))
        &&& profile.chyh@ == Seq::new((self.grid_size - 1) as nat, |m: int| self.chyh_at(m))
        &&& profile.chye@ == Seq::new((self.grid_size - 1) as nat, |m: int| self.chye_at(m))
    }
}

impl<T: Scalar> MaterialProfile<T> {
    /// The arrays fit a grid of `n` electric cells: two of length `n`, two of
    /// length `n - 1`.
    pub open spec fn fits(self, n: int) -> bool {
        &&& n >= 1
        &&& self.ceze@.len() == n
        &&& self.cezh@.len() == n
        &&& self.chyh@.len() == n - 1
        &&& self.chye@.len() == n - 1
    }

    /// A profile made of four given arrays, taken as they are.
    pub fn from_fields(ceze: OneDField<T>, cezh: OneDField<T>, chyh: OneDField<T>, chye: OneDField<T>) -> (profile:
        Self)
        ensures
            profile.ceze == ceze,
            profile.cezh == cezh,
            profile.chyh == chyh,
            profile.chye == chye,
    {
        MaterialProfile { ceze, cezh, chyh, chye }
    }

    /// Whether the arrays fit a grid of `n` electric cells.
    pub fn check_fits(&self, n: usize) -> (ok: bool)
        ensures
            ok == self.fits(n as int),
    {
        n >= 1 && self.ceze.length() == n && self.cezh.length() == n && self.chyh.length() == n - 1
            && self.chye.length() == n - 1
    }

    /// Computes the coefficient arrays for `config`, once and for all cells.
    /// An empty grid is refused.
    pub fn derive(config: &MaterialConfig<T>) -> (r: Result<Self, FdtdError>)
        ensures
            config.grid_size == 0 ==> r == Err::<Self, FdtdError>(FdtdError::ConfigurationError),
            config.grid_size > 0 ==> r is Ok && config.describes(r->Ok_0) && r->Ok_0.fits(
                config.grid_size as int,
            ),
    {
        let n: usize = config.grid_size;
        if n == 0 {
            return Err(FdtdError::ConfigurationError);
        }
        let one: T = T::one();
        let free_coupling: T = config.impedance;
        let dense_coupling: T = config.impedance.over(config.relative_permittivity);
        let back_coupling: T = one.over(config.impedance);
        let (lossy_from, keep, weaken): (usize, T, T) = match &config.loss_layer {
            Some(layer) => (layer.start, one.minus(layer.loss).over(one.plus(layer.loss)), one.plus(
                layer.loss,
            )),
            None => (n, one, one),
        };
        let mut ceze: OneDField<T> = OneDField::new_zeroed(n);
        let mut cezh: OneDField<T> = OneDField::new_zeroed(n);
        let mut chyh: OneDField<T> = OneDField::new_zeroed(n - 1);
        let mut chye: OneDField<T> = OneDField::new_zeroed(n - 1);
        let mut m: usize = 0;
        while m < n
            invariant
                m <= n,
                n == config.grid_size,
                ceze@.len() == n,
                cezh@.len() == n,
                free_coupling == config.impedance,
                dense_coupling == config.impedance.quotient(config.relative_permittivity),
                one == T::one_value(),
                forall|k: int| lossy_from <= k < n ==> config.is_lossy(k),
                forall|k: int| 0 <= k < lossy_from ==> !config.is_lossy(k),
                config.loss_layer is Some ==> keep == retention(config.loss()) && weaken
                    == T::one_value().sum(config.loss()),
                forall|k: int| 0 <= k < m ==> ceze@[k] == config.ceze_at(k),
                forall|k: int| 0 <= k < m ==> cezh@[k] == config.cezh_at(k),
            decreases n - m,
        {
            let coupling: T = if m < config.dielectric_boundary {
                free_coupling
            } else {
                dense_coupling
            };
            if m >= lossy_from {
                ceze.put(m, keep);
                cezh.put(m, coupling.over(weaken));
            } else {
                ceze.put(m, one);
                cezh.put(m, coupling);
            }
            m += 1;
        }
        m = 0;
        while m < n - 1
            invariant
                m <= n - 1,
                n == config.grid_size,
                n >= 1,
                chyh@.len() == n - 1,
                chye@.len() == n - 1,
                back_coupling == config.magnetic_coupling(),
                one == T::one_value(),
                forall|k: int| lossy_from <= k < n ==> config.is_lossy(k),
                forall|k: int| 0 <= k < lossy_from ==> !config.is_lossy(k),
                config.loss_layer is Some ==> keep == retention(config.loss()) && weaken
                    == T::one_value().sum(config.loss()),
                forall|k: int| 0 <= k < m ==> chyh@[k] == config.chyh_at(k),
                forall|k: int| 0 <= k < m ==> chye@[k] == config.chye_at(k),
            decreases n - 1 - m,
        {
            if m >= lossy_from {
                chyh.put(m, keep);
                chye.put(m, back_coupling.over(weaken));
            } else {
                chyh.put(m, one);
                chye.put(m, back_coupling);
            }
            m += 1;
        }
        let profile = MaterialProfile { ceze, cezh, chyh, chye };
        proof {
            assert(profile.ceze@ =~= Seq::new(n as nat, |k: int| config.ceze_at(k)));
            assert(profile.cezh@ =~= Seq::new(n as nat, |k: int| config.cezh_at(k)));
            assert(profile.chyh@ =~= Seq::new((n - 1) as nat, |k: int| config.chyh_at(k)));
            assert(profile.chye@ =~= Seq::new((n - 1) as nat, |k: int| config.chye_at(k)));
        }
        Ok(profile)
    }
}

} // verus!
