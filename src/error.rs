use vstd::prelude::*;

verus! {

/// The ways a transmission computation can fail.
#[derive(Debug, Clone, Copy, PartialEq, Eq, Structural)]
pub enum NegfError {
    /// Partition sizes do not sum to the Hamiltonian's dimension, or a block's
    /// shape disagrees with its neighbours.
    DimensionMismatch,
    /// A non-positive energy-sample count or another malformed setting.
    InvalidConfiguration,
    /// The spectrum's spread is zero, so no energy grid can be laid over it.
    DegenerateSpectrum,
    /// The sequences meant for final assembly do not share one energy grid.
    GridMismatch,
    /// The eigendecomposition did not converge.
    NumericalFailure,
}

} // verus!
