use vstd::prelude::*;

use crate::error::NegfError;
use crate::matrix::{block, is_shaped, DenseMatrix};

verus! {

/// The left lead's own block of `h`.
pub open spec fn left_block<T>(h: Seq<Seq<T>>, l: int, d: int, r: int) -> Seq<Seq<T>> {
    block(h, 0, 0, l, l)
}

/// The device's own block of `h`.
pub open spec fn device_block<T>(h: Seq<Seq<T>>, l: int, d: int, r: int) -> Seq<Seq<T>> {
    block(h, l, l, d, d)
}

/// The right lead's own block of `h`.
pub open spec fn right_block<T>(h: Seq<Seq<T>>, l: int, d: int, r: int) -> Seq<Seq<T>> {
    block(h, l + d, l + d, r, r)
}

/// The coupling of the left lead (rows) to the device (columns).
pub open spec fn left_coupling<T>(h: Seq<Seq<T>>, l: int, d: int, r: int) -> Seq<Seq<T>> {
    block(h, 0, l, l, d)
}

/// The coupling of the device (rows) to the right lead (columns).
pub open spec fn right_coupling<T>(h: Seq<Seq<T>>, l: int, d: int, r: int) -> Seq<Seq<T>> {
    block(h, l, l + d, d, r)
}

/// Whether entry `(i, j)` of an `l + d + r` square matrix lies in one of the
/// five blocks: the three diagonal blocks and the two couplings above the
/// diagonal that touch the device.
pub open spec fn in_some_block(l: int, d: int, r: int, i: int, j: int) -> bool {
    let n = l + d + r;
    &&& 0 <= i < n
    &&& 0 <= j < n
    &&& {
        ||| i < l && j < l + d
        ||| l <= i < l + d && l <= j
        ||| l + d <= i && l + d <= j
    }
}

/// The entry at `(i, j)` of the matrix that has the five blocks placed at
/// their offsets.
pub open spec fn placed_entry<T>(
    lh: Seq<Seq<T>>,
    dh: Seq<Seq<T>>,
    rh: Seq<Seq<T>>,
    li: Seq<Seq<T>>,
    ri: Seq<Seq<T>>,
    l: int,
    d: int,
    i: int,
    j: int,
) -> T {
    if i < l {
        if j < l {
            lh[i][j]
        } else {
            li[i][j - l]
        }
    } else if i < l + d {
        if j < l + d {
            dh[i - l][j - l]
        } else {
            ri[i - l][j - l - d]
        }
    } else {
        rh[i - l - d][j - l - d]
    }
}

/// The `l + d + r` square matrix that holds the five blocks at their offsets
/// and `fill` everywhere else.
pub open spec fn reassembled<T>(
    lh: Seq<Seq<T>>,
    dh: Seq<Seq<T>>,
    rh: Seq<Seq<T>>,
    li: Seq<Seq<T>>,
    ri: Seq<Seq<T>>,
    l: int,
    d: int,
    r: int,
    fill: T,
) -> Seq<Seq<T>> {
    Seq::new(
        (l + d + r) as nat,
        |i: int|
            Seq::new(
                (l + d + r) as nat,
                |j: int|
                    if in_some_block(l, d, r, i, j) {
                        placed_entry(lh, dh, rh, li, ri, l, d, i, j)
                    } else {
                        fill
                    },
            ),
    )
}

/// Block extraction is pure re-slicing: placing the five extracted blocks
/// back at their offsets gives every entry of the original matrix that they
/// cover, with no entry moved or changed; so a matrix that holds `fill`
/// wherever no block reaches is rebuilt from its blocks exactly.
pub proof fn lemma_blocks_reassemble<T>(h: Seq<Seq<T>>, l: nat, d: nat, r: nat, fill: T)
    requires
        is_shaped(h, (l + d + r) as int, (l + d + r) as int),
    ensures
        forall|i: int, j: int|
            #![trigger h[i][j]]
            in_some_block(l as int, d as int, r as int, i, j) ==> placed_entry(
                left_block(h, l as int, d as int, r as int),
                device_block(h, l as int, d as int, r as int),
                right_block(h, l as int, d as int, r as int),
                left_coupling(h, l as int, d as int, r as int),
                right_coupling(h, l as int, d as int, r as int),
                l as int,
                d as int,
                i,
                j,
            ) == h[i][j],
        (forall|i: int, j: int|
            #![trigger h[i][j]]
            0 <= i < l + d + r && 0 <= j < l + d + r && !in_some_block(
                l as int,
                d as int,
                r as int,
                i,
                j,
            ) ==> h[i][j] == fill) ==> reassembled(
            left_block(h, l as int, d as int, r as int),
            device_block(h, l as int, d as int, r as int),
            right_block(h, l as int, d as int, r as int),
            left_coupling(h, l as int, d as int, r as int),
            right_coupling(h, l as int, d as int, r as int),
            l as int,
            d as int,
            r as int,
            fill,
        ) == h,
{
    let n = (l + d + r) as int;
    let lh = left_block(h, l as int, d as int, r as int);
    let dh = device_block(h, l as int, d as int, r as int);
    let rh = right_block(h, l as int, d as int, r as int);
    let li = left_coupling(h, l as int, d as int, r as int);
    let ri = right_coupling(h, l as int, d as int, r as int);
    if forall|i: int, j: int|
        #![trigger h[i][j]]
        0 <= i < n && 0 <= j < n && !in_some_block(l as int, d as int, r as int, i, j) ==> h[i][j]
            == fill {
        let m = reassembled(lh, dh, rh, li, ri, l as int, d as int, r as int, fill);
        assert forall|i: int| 0 <= i < n implies #[trigger] m[i] == h[i] by {
            assert(m[i] =~= h[i]);
        }
        assert(m =~= h);
    }
}

/// What an extraction returns: the block `expected` when the partition is
/// valid, and `DimensionMismatch` when it is not.
pub open spec fn extracted<T>(
    res: Result<DenseMatrix<T>, NegfError>,
    valid: bool,
    expected: Seq<Seq<T>>,
    nr: int,
    nc: int,
) -> bool {
    match res {
        Ok(m) => valid && m@ == expected && m.num_rows() == nr && m.num_cols() == nc,
        Err(e) => !valid && e == NegfError::DimensionMismatch,
    }
}

/// The five blocks of a partitioned Hamiltonian, held apart.
pub struct BlockHamiltonianInput<T> {
    pub device: DenseMatrix<T>,
    pub left_lead: DenseMatrix<T>,
    pub right_lead: DenseMatrix<T>,
    pub left_interaction: DenseMatrix<T>,
    pub right_interaction: DenseMatrix<T>,
}

impl<T> BlockHamiltonianInput<T> {
    /// The three diagonal blocks are square, and each coupling has as many
    /// rows as the block above it and as many columns as the block beside it.
    pub open spec fn shapes_agree(&self) -> bool {
        let l = self.left_lead.num_rows();
        let d = self.device.num_rows();
        let r = self.right_lead.num_rows();
        &&& self.left_lead.num_cols() == l
        &&& self.device.num_cols() == d
        &&& self.right_lead.num_cols() == r
        &&& self.left_interaction.num_rows() == l
        &&& self.left_interaction.num_cols() == d
        &&& self.right_interaction.num_rows() == d
        &&& self.right_interaction.num_cols() == r
    }

    /// Succeeds exactly when the shapes agree; fails with `DimensionMismatch`
    /// otherwise.
    pub fn validate(&self) -> (r: Result<(), NegfError>)
        ensures
            r is Ok <==> self.shapes_agree(),
            r is Err ==> r == Err::<(), NegfError>(NegfError::DimensionMismatch),
    {
        let l = self.left_lead.nrows();
        let d = self.device.nrows();
        let r = self.right_lead.nrows();
        if self.left_lead.ncols() != l || self.device.ncols() != d || self.right_lead.ncols() != r {
            return Err(NegfError::DimensionMismatch);
        }
        if self.left_interaction.nrows() != l || self.left_interaction.ncols() != d {
            return Err(NegfError::DimensionMismatch);
        }
        if self.right_interaction.nrows() != d || self.right_interaction.ncols() != r {
            return Err(NegfError::DimensionMismatch);
        }
        Ok(())
    }
}

/// A full Hamiltonian with the sizes of the left lead, the device and the
/// right lead, which lie along its diagonal in that order.
pub struct FullHamiltonianInput<T> {
    pub hamiltonian: DenseMatrix<T>,
    pub left_size: usize,
    pub right_size: usize,
    pub device_size: usize,
}

impl<T> FullHamiltonianInput<T> {
    /// The matrix is square and the three sizes sum to its dimension.
    pub open spec fn partition_valid(&self) -> bool {
        &&& self.hamiltonian.num_rows() == self.hamiltonian.num_cols()
        &&& self.left_size + self.device_size + self.right_size == self.hamiltonian.num_rows()
    }

    /// Succeeds exactly when the partition is valid; fails with
    /// `DimensionMismatch` otherwise.
    pub fn validate(&self) -> (r: Result<(), NegfError>)
        ensures
            r is Ok <==> self.partition_valid(),
            r is Err ==> r == Err::<(), NegfError>(NegfError::DimensionMismatch),
            self.hamiltonian.num_rows() <= usize::MAX,
    {
        let n = self.hamiltonian.nrows();
        if self.hamiltonian.ncols() != n {
            return Err(NegfError::DimensionMismatch);
        }
        if self.left_size > n || self.device_size > n - self.left_size {
            return Err(NegfError::DimensionMismatch);
        }
        if self.right_size != n - self.left_size - self.device_size {
            return Err(NegfError::DimensionMismatch);
        }
        Ok(())
    }
}

impl<T> FullHamiltonianInput<T> {
    /// The partition is valid and `b` holds its five blocks, with shapes that
    /// agree.
    pub open spec fn holds_blocks_of(&self, b: &BlockHamiltonianInput<T>) -> bool {
        let h = self.hamiltonian@;
        let l = self.left_size as int;
        let d = self.device_size as int;
        let r = self.right_size as int;
        &&& self.partition_valid()
        &&& b.shapes_agree()
        &&& b.left_lead.num_rows() == l
        &&& b.device.num_rows() == d
        &&& b.right_lead.num_rows() == r
        &&& b.left_lead@ == left_block(h, l, d, r)
        &&& b.device@ == device_block(h, l, d, r)
        &&& b.right_lead@ == right_block(h, l, d, r)
        &&& b.left_interaction@ == left_coupling(h, l, d, r)
        &&& b.right_interaction@ == right_coupling(h, l, d, r)
    }
}

impl<T: Copy> FullHamiltonianInput<T> {
    /// The coupling block from the left lead to the device.
    pub fn left_interaction_matrix(&self) -> (r: Result<DenseMatrix<T>, NegfError>)
        ensures
            extracted(
                r,
                self.partition_valid(),
                left_coupling(
                    self.hamiltonian@,
                    self.left_size as int,
                    self.device_size as int,
                    self.right_size as int,
                ),
                self.left_size as int,
                self.device_size as int,
            ),
    {
        self.validate()?;
        Ok(self.hamiltonian.sub_block(0, self.left_size, self.left_size, self.device_size))
    }

    /// The coupling block from the device to the right lead.
    pub fn right_interaction_matrix(&self) -> (r: Result<DenseMatrix<T>, NegfError>)
        ensures
            extracted(
                r,
                self.partition_valid(),
                right_coupling(
                    self.hamiltonian@,
                    self.left_size as int,
                    self.device_size as int,
                    self.right_size as int,
                ),
                self.device_size as int,
                self.right_size as int,
            ),
    {
        self.validate()?;
        Ok(
            self.hamiltonian.sub_block(
                self.left_size,
                self.left_size + self.device_size,
                self.device_size,
                self.right_size,
            ),
        )
    }

    /// The left lead's own Hamiltonian.
    pub fn left_hamiltonian(&self) -> (r: Result<DenseMatrix<T>, NegfError>)
        ensures
            extracted(
                r,
                self.partition_valid(),
                left_block(
                    self.hamiltonian@,
                    self.left_size as int,
                    self.device_size as int,
                    self.right_size as int,
                ),
                self.left_size as int,
                self.left_size as int,
            ),
    {
        self.validate()?;
        Ok(self.hamiltonian.sub_block(0, 0, self.left_size, self.left_size))
    }

    /// The right lead's own Hamiltonian.
    pub fn right_hamiltonian(&self) -> (r: Result<DenseMatrix<T>, NegfError>)
        ensures
            extracted(
                r,
                self.partition_valid(),
                right_block(
                    self.hamiltonian@,
                    self.left_size as int,
                    self.device_size as int,
                    self.right_size as int,
                ),
                self.right_size as int,
                self.right_size as int,
            ),
    {
        self.validate()?;
        let start = self.left_size + self.device_size;
        Ok(self.hamiltonian.sub_block(start, start, self.right_size, self.right_size))
    }

    /// The device's own Hamiltonian.
    pub fn device_hamiltonian(&self) -> (r: Result<DenseMatrix<T>, NegfError>)
        ensures
            extracted(
                r,
                self.partition_valid(),
                device_block(
                    self.hamiltonian@,
                    self.left_size as int,
                    self.device_size as int,
                    self.right_size as int,
                ),
                self.device_size as int,
                self.device_size as int,
            ),
    {
        self.validate()?;
        let start = self.left_size;
        Ok(self.hamiltonian.sub_block(start, start, self.device_size, self.device_size))
    }

    /// All five blocks at once, or `DimensionMismatch` when the partition is
    /// not valid.
    pub fn to_blocks(&self) -> (r: Result<BlockHamiltonianInput<T>, NegfError>)
        ensures
            match r {
                Ok(b) => self.holds_blocks_of(&b),
                Err(e) => !self.partition_valid() && e == NegfError::DimensionMismatch,
            },
    {
        let left_lead = self.left_hamiltonian()?;
        let device = self.device_hamiltonian()?;
        let right_lead = self.right_hamiltonian()?;
        let left_interaction = self.left_interaction_matrix()?;
        let right_interaction = self.right_interaction_matrix()?;
        Ok(BlockHamiltonianInput { device, left_lead, right_lead, left_interaction, right_interaction })
    }
}

} // verus!
