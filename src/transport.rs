use vstd::prelude::*;

use crate::error::NegfError;
use crate::partition::{BlockHamiltonianInput, FullHamiltonianInput};

verus! {

/// The number of energy samples used when the caller names none.
pub const DEFAULT_ENERGY_SAMPLE_COUNT: usize = 100;

/// Checks a transmission request before any diagonalization and splits the
/// Hamiltonian into its blocks. An invalid partition is reported first, as
/// `DimensionMismatch`; then a zero sample count, as `InvalidConfiguration`.
pub fn prepare_blocks<T: Copy>(input: &FullHamiltonianInput<T>, energy_sample_count: usize) -> (r:
    Result<BlockHamiltonianInput<T>, NegfError>)
    ensures
        match r {
            Ok(b) => energy_sample_count > 0 && input.holds_blocks_of(&b),
            Err(e) => if !input.partition_valid() {
                e == NegfError::DimensionMismatch
            } else {
                energy_sample_count == 0 && e == NegfError::InvalidConfiguration
            },
        },
{
    input.validate()?;
    if energy_sample_count == 0 {
        return Err(NegfError::InvalidConfiguration);
    }
    input.to_blocks()
}

/// The number of points of an energy grid of `energy_sample_count` samples
/// over a spectrum; `spectrum_is_degenerate` says whether its lowest and
/// highest eigenvalues coincide, so that the grid's step would be zero.
pub fn energy_grid_length(energy_sample_count: usize, spectrum_is_degenerate: bool) -> (r: Result<
    usize,
    NegfError,
>)
    ensures
        r == if energy_sample_count == 0 {
            Err::<usize, NegfError>(NegfError::InvalidConfiguration)
        } else if spectrum_is_degenerate {
            Err(NegfError::DegenerateSpectrum)
        } else {
            Ok(energy_sample_count)
        },
{
    if energy_sample_count == 0 {
        Err(NegfError::InvalidConfiguration)
    } else if spectrum_is_degenerate {
        Err(NegfError::DegenerateSpectrum)
    } else {
        Ok(energy_sample_count)
    }
}

/// The three sequences, paired index for index.
pub open spec fn zipped<A, B, C>(a: Seq<A>, b: Seq<B>, c: Seq<C>) -> Seq<(A, B, C)> {
    Seq::new(a.len(), |k: int| (a[k], b[k], c[k]))
}

/// Pairs the device's Green's functions with the two broadening sequences,
/// point by point. Sequences of different lengths were not sampled on one
/// energy grid: they give `GridMismatch`, never a truncated pairing.
pub fn align_sequences<A, B, C>(device: Vec<A>, left: Vec<B>, right: Vec<C>) -> (r: Result<
    Vec<(A, B, C)>,
    NegfError,
>)
    ensures
        match r {
            Ok(v) => {
                &&& device@.len() == left@.len()
                &&& device@.len() == right@.len()
                &&& v@ == zipped(device@, left@, right@)
            },
            Err(e) => {
                &&& (device@.len() != left@.len() || device@.len() != right@.len())
                &&& e == NegfError::GridMismatch
            },
        },
{
    if device.len() != left.len() || device.len() != right.len() {
        return Err(NegfError::GridMismatch);
    }
    let ghost a0 = device@;
    let ghost b0 = left@;
    let ghost c0 = right@;
    let ghost n = a0.len();
    let mut device = device;
    let mut left = left;
    let mut right = right;
    let mut out: Vec<(A, B, C)> = Vec::new();
    while device.len() > 0
        invariant
            a0.len() == n,
            b0.len() == n,
            c0.len() == n,
            device@.len() <= n,
            device@ == a0.subrange(0, device@.len() as int),
            left@ == b0.subrange(0, device@.len() as int),
            right@ == c0.subrange(0, device@.len() as int),
            out@ == zipped(a0, b0, c0).subrange(device@.len() as int, n as int),
        decreases device@.len(),
    {
        let ghost k = device@.len() - 1;
        let x = device.pop().unwrap();
        let y = left.pop().unwrap();
        let z = right.pop().unwrap();
        assert((x, y, z) == zipped(a0, b0, c0)[k]);
        out.insert(0, (x, y, z));
        assert(out@ =~= zipped(a0, b0, c0).subrange(k, n as int));
        assert(device@ =~= a0.subrange(0, k));
        assert(left@ =~= b0.subrange(0, k));
        assert(right@ =~= c0.subrange(0, k));
    }
    assert(out@ =~= zipped(a0, b0, c0));
    Ok(out)
}

} // verus!
