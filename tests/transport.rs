use negf::error::NegfError;
use negf::matrix::DenseMatrix;
use negf::partition::FullHamiltonianInput;
use negf::transport::{align_sequences, energy_grid_length, prepare_blocks, DEFAULT_ENERGY_SAMPLE_COUNT};

fn input(n: usize, l: usize, d: usize, r: usize) -> FullHamiltonianInput<i64> {
    FullHamiltonianInput { hamiltonian: DenseMatrix::filled(n, n, 1i64), left_size: l, right_size: r, device_size: d }
}

#[test]
fn wrong_partition_is_reported_before_anything_else() {
    let h = input(3, 1, 1, 2);
    assert_eq!(prepare_blocks(&h, 100).err(), Some(NegfError::DimensionMismatch));
    assert_eq!(prepare_blocks(&h, 0).err(), Some(NegfError::DimensionMismatch));
}

#[test]
fn zero_sample_count_is_invalid_configuration() {
    let h = input(3, 1, 1, 1);
    assert_eq!(prepare_blocks(&h, 0).err(), Some(NegfError::InvalidConfiguration));
}

#[test]
fn valid_request_gives_the_blocks() {
    let h = input(3, 1, 1, 1);
    let b = prepare_blocks(&h, DEFAULT_ENERGY_SAMPLE_COUNT).unwrap();
    assert_eq!(b.validate(), Ok(()));
    assert_eq!(b.device.nrows(), 1);
    assert_eq!(b.left_interaction.get(0, 0), 1);
}

#[test]
fn grid_length_is_the_configured_count() {
    assert_eq!(energy_grid_length(100, false), Ok(100));
    assert_eq!(energy_grid_length(1, false), Ok(1));
}

#[test]
fn degenerate_spectrum_is_reported() {
    assert_eq!(energy_grid_length(100, true), Err(NegfError::DegenerateSpectrum));
}

#[test]
fn zero_count_grid_is_invalid_configuration() {
    assert_eq!(energy_grid_length(0, true), Err(NegfError::InvalidConfiguration));
    assert_eq!(energy_grid_length(0, false), Err(NegfError::InvalidConfiguration));
}

#[test]
fn aligned_sequences_are_paired_in_order() {
    let r = align_sequences(vec![1, 2, 3], vec!['a', 'b', 'c'], vec![10u8, 20, 30]).unwrap();
    assert_eq!(r, vec![(1, 'a', 10), (2, 'b', 20), (3, 'c', 30)]);
    let e: Vec<(i32, i32, i32)> = align_sequences(vec![], vec![], vec![]).unwrap();
    assert!(e.is_empty());
}

#[test]
fn sequences_of_different_lengths_give_grid_mismatch() {
    assert_eq!(align_sequences(vec![1, 2, 3], vec![1, 2], vec![1, 2, 3]).err(), Some(NegfError::GridMismatch));
    assert_eq!(align_sequences(vec![1, 2], vec![1, 2], vec![1, 2, 3]).err(), Some(NegfError::GridMismatch));
}
