//! A zero-knowledge proof workflow for the linear relation `y = a·x + b`:
//! scalars of the BLS12-381 scalar field, the rank-1 constraint layout of the
//! relation, hardware-seeded randomness and the phases of the proof pipeline.

pub mod circuit;
pub mod entropy;
pub mod pipeline;
pub mod rng;
pub mod scalar;
