//! Structural core of a non-equilibrium Green's function transmission
//! computation: partitioning a Hamiltonian into lead and device blocks, and
//! the checks that decide whether a computation may go ahead.

pub mod error;
pub mod matrix;
pub mod outputs;
pub mod partition;
pub mod transport;
