//! Synthetic star catalog generation: spatial volumes, system multiplicity,
//! weighted spectral classification and deterministic naming.

pub mod generation;
pub mod model;
pub mod naming;
pub mod random;
