use vstd::prelude::*;

verus! {

/// Polarization of a radiating element.
#[derive(Debug, Clone, Copy)]
pub enum AntennaPolarization {
    Horizontal,
    Vertical,
    Lefthand,
    Righthand,
}

} // verus!
