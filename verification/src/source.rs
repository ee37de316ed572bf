use vstd::prelude::*;
use crate::error::FdtdError;
use crate::scalar::Scalar;

verus! {

/// The shape of the injected plane wave.
pub enum Waveform<T> {
    /// A continuous sinusoid with `ppw` points per wavelength.
    Harmonic { ppw: T },
    /// A single transient pulse.
    GaussianPulse,
}

/// Where and how the plane wave enters the grid.
pub struct SourceState<T> {
    /// The magnetic cell at the total-field/scattered-field boundary; the
    /// electric cell fed is the one after it.
    pub tfsf_boundary: usize,
    /// The Courant number of the run.
    pub courant: T,
    /// The waveform, fixed for the run.
    pub waveform: Waveform<T>,
}

/// A point at which the waveform is sampled. Times count from the start of
/// the run in steps, offsets from the source boundary in cells; both fields
/// are staggered by one half, which the two flags record.
#[derive(Clone, Copy, Debug, PartialEq, Eq, Structural)]
pub struct SamplePoint {
    /// The whole steps elapsed.
    pub step: usize,
    /// Whether the time lies half a step after `step`.
    pub half_step_later: bool,
    /// Whether the place lies half a cell before the boundary.
    pub half_cell_before: bool,
}

/// Where the waveform is sampled for the magnetic cell at the boundary in
/// step `q`: at time `q`, on the boundary.
pub fn magnetic_sample_point(q: usize) -> (point: SamplePoint)
    ensures
        point == (SamplePoint { step: q, half_step_later: false, half_cell_before: false }),
{
    SamplePoint { step: q, half_step_later: false, half_cell_before: false }
}

/// Where the waveform is sampled for the electric cell after the boundary
/// in step `q`: at time `q + 1/2`, half a cell before the boundary.
pub fn electric_sample_point(q: usize) -> (point: SamplePoint)
    ensures
        point == (SamplePoint { step: q, half_step_later: true, half_cell_before: true }),
{
    SamplePoint { step: q, half_step_later: true, half_cell_before: true }
}

/// The explicit scheme is stable for Courant numbers above zero and up to one.
pub open spec fn stable<T: Scalar>(courant: T) -> bool {
    !courant.at_most(T::zero_value()) && courant.at_most(T::one_value())
}

/// Whether `courant` lies in the stable range.
pub fn is_stable<T: Scalar>(courant: T) -> (ok: bool)
    ensures
        ok == stable(courant),
{
    !courant.le(T::zero()) && courant.le(T::one())
}

impl<T: Scalar> SourceState<T> {
    /// The source suits a grid of `n` electric cells: both cells it touches
    /// exist, and the Courant number is stable.
    pub open spec fn suits(self, n: int) -> bool {
        self.tfsf_boundary + 1 < n && stable(self.courant)
    }

    /// Whether the source suits a grid of `n` electric cells.
    pub fn check_suits(&self, n: usize) -> (ok: bool)
        ensures
            ok == self.suits(n as int),
    {
        self.tfsf_boundary < n && self.tfsf_boundary + 1 < n && is_stable(self.courant)
    }

    /// A source for a grid of `grid_size` electric cells, refused where it
    /// does not suit the grid.
    pub fn new(tfsf_boundary: usize, courant: T, waveform: Waveform<T>, grid_size: usize) -> (r:
        Result<Self, FdtdError>)
        ensures
            (SourceState { tfsf_boundary, courant, waveform }).suits(grid_size as int) ==> r == Ok::<
                Self,
                FdtdError,
            >(SourceState { tfsf_boundary, courant, waveform }),
            !(SourceState { tfsf_boundary, courant, waveform }).suits(grid_size as int) ==> r
                == Err::<Self, FdtdError>(FdtdError::ConfigurationError),
    {
        let source = SourceState { tfsf_boundary, courant, waveform };
        if source.check_suits(grid_size) {
            Ok(source)
        } else {
            Err(FdtdError::ConfigurationError)
        }
    }
}

} // verus!
