//! One-dimensional finite-difference time-domain field simulation over an
//! abstract scalar type, with every index, length and ordering obligation proved.

pub mod antenna;
pub mod boundary;
pub mod error;
pub mod field;
pub mod fixed;
pub mod material;
pub mod model;
pub mod scalar;
pub mod simulator;
pub mod source;
