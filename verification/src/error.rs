use vstd::prelude::*;

verus! {

/// The two ways in which the simulation core refuses to work.
#[derive(Clone, Copy, Debug, PartialEq, Eq, Structural)]
pub enum FdtdError {
    /// The request cannot describe a run: a length mismatch, an empty grid,
    /// an unstable Courant number or a source index outside the grid.
    ConfigurationError,
    /// A cell index at or beyond the fixed length of a field.
    OutOfRange,
}

} // verus!
