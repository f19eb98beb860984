use vstd::prelude::*;

use crate::error::NegfError;

verus! {

/// `m` has `r` rows, each of `c` entries.
pub open spec fn is_shaped<T>(m: Seq<Seq<T>>, r: int, c: int) -> bool {
    &&& m.len() == r
    &&& forall|i: int| 0 <= i < r ==> (#[trigger] m[i]).len() == c
}

/// The `nr` by `nc` block of `m` whose top-left entry is `m[r0][c0]`.
pub open spec fn block<T>(m: Seq<Seq<T>>, r0: int, c0: int, nr: int, nc: int) -> Seq<Seq<T>> {
    Seq::new(nr as nat, |i: int| Seq::new(nc as nat, |j: int| m[r0 + i][c0 + j]))
}

/// A dense matrix stored row by row.
pub struct DenseMatrix<T> {
    rows: usize,
    cols: usize,
    data: Vec<Vec<T>>,
}

impl<T> View for DenseMatrix<T> {
    type V = Seq<Seq<T>>;

    closed spec fn view(&self) -> Seq<Seq<T>> {
        Seq::new(self.data@.len(), |i: int| self.data@[i]@)
    }
}

impl<T> DenseMatrix<T> {
    #[verifier::type_invariant]
    spec fn shape_holds(&self) -> bool {
        is_shaped(self@, self.rows as int, self.cols as int)
    }

    /// The number of rows.
    pub closed spec fn num_rows(&self) -> nat {
        self.rows as nat
    }

    /// The number of columns.
    pub closed spec fn num_cols(&self) -> nat {
        self.cols as nat
    }

    pub fn nrows(&self) -> (r: usize)
        ensures
            r == self.num_rows(),
            is_shaped(self@, self.num_rows() as int, self.num_cols() as int),
    {
        proof {
            use_type_invariant(self);
        }
        self.rows
    }

    pub fn ncols(&self) -> (r: usize)
        ensures
            r == self.num_cols(),
            is_shaped(self@, self.num_rows() as int, self.num_cols() as int),
    {
        proof {
            use_type_invariant(self);
        }
        self.cols
    }

    /// Builds a `rows` by `cols` matrix from its rows; fails with
    /// `DimensionMismatch` unless there are `rows` rows of `cols` entries each.
    pub fn from_rows(rows: usize, cols: usize, data: Vec<Vec<T>>) -> (r: Result<Self, NegfError>)
        ensures
            match r {
                Ok(m) => {
                    &&& is_shaped(data@.map_values(|v: Vec<T>| v@), rows as int, cols as int)
                    &&& m@ == data@.map_values(|v: Vec<T>| v@)
                    &&& m.num_rows() == rows
                    &&& m.num_cols() == cols
                },
                Err(e) => {
                    &&& !is_shaped(data@.map_values(|v: Vec<T>| v@), rows as int, cols as int)
                    &&& e == NegfError::DimensionMismatch
                },
            },
    {
        let ghost view = data@.map_values(|v: Vec<T>| v@);
        if data.len() != rows {
            return Err(NegfError::DimensionMismatch);
        }
        let mut i: usize = 0;
        while i < rows
            invariant
                data@.len() == rows,
                view == data@.map_values(|v: Vec<T>| v@),
                i <= rows,
                forall|k: int| 0 <= k < i ==> (#[trigger] view[k]).len() == cols,
            decreases rows - i,
        {
            if data[i].len() != cols {
                assert(view[i as int].len() != cols);
                return Err(NegfError::DimensionMismatch);
            }
            i = i + 1;
        }
        assert(Seq::new(data@.len(), |k: int| data@[k]@) =~= view);
        assert(is_shaped(view, rows as int, cols as int));
        let m = DenseMatrix { rows, cols, data };
        Ok(m)
    }

    /// Gives back the rows.
    pub fn into_rows(self) -> (r: Vec<Vec<T>>)
        ensures
            r@.map_values(|v: Vec<T>| v@) == self@,
            is_shaped(self@, self.num_rows() as int, self.num_cols() as int),
    {
        proof {
            use_type_invariant(&self);
        }
        let r = self.data;
        assert(r@.map_values(|v: Vec<T>| v@) =~= self@);
        r
    }
}

impl<T: Copy> DenseMatrix<T> {
    /// A `rows` by `cols` matrix with every entry `value`.
    pub fn filled(rows: usize, cols: usize, value: T) -> (m: Self)
        ensures
            m.num_rows() == rows,
            m.num_cols() == cols,
            is_shaped(m@, rows as int, cols as int),
            forall|i: int, j: int| 0 <= i < rows && 0 <= j < cols ==> #[trigger] m@[i][j] == value,
    {
        let mut data: Vec<Vec<T>> = Vec::new();
        let mut i: usize = 0;
        while i < rows
            invariant
                i <= rows,
                data@.len() == i,
                forall|k: int| 0 <= k < i ==> (#[trigger] data@[k])@.len() == cols,
                forall|k: int, j: int| 0 <= k < i && 0 <= j < cols ==> #[trigger] data@[k]@[j] == value,
            decreases rows - i,
        {
            let mut row: Vec<T> = Vec::new();
            let mut j: usize = 0;
            while j < cols
                invariant
                    j <= cols,
                    row@.len() == j,
                    forall|l: int| 0 <= l < j ==> #[trigger] row@[l] == value,
                decreases cols - j,
            {
                row.push(value);
                j = j + 1;
            }
            data.push(row);
            i = i + 1;
        }
        DenseMatrix { rows, cols, data }
    }

    /// The entry in row `i`, column `j`.
    pub fn get(&self, i: usize, j: usize) -> (r: T)
        requires
            i < self.num_rows(),
            j < self.num_cols(),
        ensures
            r == self@[i as int][j as int],
    {
        proof {
            use_type_invariant(self);
        }
        assert(self.data@[i as int]@ == self@[i as int]);
        self.data[i][j]
    }

    /// A copy of the `nr` by `nc` block whose top-left entry is at row `r0`,
    /// column `c0`.
    pub fn sub_block(&self, r0: usize, c0: usize, nr: usize, nc: usize) -> (m: Self)
        requires
            r0 + nr <= self.num_rows(),
            c0 + nc <= self.num_cols(),
        ensures
            m.num_rows() == nr,
            m.num_cols() == nc,
            m@ == block(self@, r0 as int, c0 as int, nr as int, nc as int),
    {
        proof {
            use_type_invariant(self);
        }
        let ghost target = block(self@, r0 as int, c0 as int, nr as int, nc as int);
        let mut data: Vec<Vec<T>> = Vec::new();
        let mut i: usize = 0;
        while i < nr
            invariant
                i <= nr,
                r0 + nr <= self.rows,
                c0 + nc <= self.cols,
                is_shaped(self@, self.rows as int, self.cols as int),
                target == block(self@, r0 as int, c0 as int, nr as int, nc as int),
                data@.len() == i,
                forall|k: int| 0 <= k < i ==> (#[trigger] data@[k])@ == target[k],
            decreases nr - i,
        {
            let src = &self.data[r0 + i];
            assert(src@ == self@[r0 + i]);
            let mut row: Vec<T> = Vec::new();
            let mut j: usize = 0;
            while j < nc
                invariant
                    j <= nc,
                    c0 + nc <= self.cols,
                    src@.len() == self.cols,
                    src@ == self@[r0 + i],
                    row@.len() == j,
                    forall|l: int| 0 <= l < j ==> #[trigger] row@[l] == self@[r0 + i][c0 + l],
                decreases nc - j,
            {
                row.push(src[c0 + j]);
                j = j + 1;
            }
            assert(row@ =~= target[i as int]);
            data.push(row);
            i = i + 1;
        }
        let m = DenseMatrix { rows: nr, cols: nc, data };
        assert(m@ =~= target);
        m
    }
}

} // verus!
