use vstd::prelude::*;

verus! {

/// One transmission matrix per sampled energy, in the grid's order.
pub struct TransmissionMatrix<M>(pub Vec<M>);

/// One current matrix per sampled energy, in the grid's order.
pub struct CurrentMatrix<M>(pub Vec<M>);

} // verus!
