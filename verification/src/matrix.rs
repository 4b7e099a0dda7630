//! Dense matrices of fixed-point numbers, stored by nalgebra.
use vstd::prelude::*;
use crate::error::Error;
use crate::fixed::Fixed;

verus! {

/// What a [`Matrix`] holds: its number of rows and its columns, each a vector
/// of that many entries.
pub struct MatrixModel {
    pub rows: nat,
    pub columns: Seq<Seq<Fixed>>,
}

impl MatrixModel {
    pub open spec fn wf(self) -> bool {
        forall|j: int| 0 <= j < self.columns.len() ==> (#[trigger] self.columns[j]).len() == self.rows
    }

    /// The number of columns.
    pub open spec fn cols(self) -> nat {
        self.columns.len()
    }

    /// The entry in row `i` and column `j`.
    pub open spec fn at(self, i: int, j: int) -> Fixed {
        self.columns[j][i]
    }

    /// The sum of the first `n` products of row `i` of `self` with column `j`
    /// of `rhs`, added up from the first.
    pub open spec fn dot(self, rhs: MatrixModel, i: int, j: int, n: nat) -> Fixed
        decreases n,
    {
        if n == 0 {
            Fixed::spec_zero()
        } else {
            self.dot(rhs, i, j, (n - 1) as nat).spec_plus(
                self.at(i, n - 1).spec_times(rhs.at(n - 1, j)),
            )
        }
    }

    /// The product `self * rhs`, where the shapes fit.
    pub open spec fn product(self, rhs: MatrixModel) -> MatrixModel {
        MatrixModel {
            rows: self.rows,
            columns: Seq::new(
                rhs.cols(),
                |j: int| Seq::new(self.rows, |i: int| self.dot(rhs, i, j, self.cols())),
            ),
        }
    }

    /// The matrix with `n` rows of `value` put in before row `i`.
    pub open spec fn with_rows(self, i: nat, n: nat, value: Fixed) -> MatrixModel {
        MatrixModel {
            rows: self.rows + n,
            columns: Seq::new(
                self.cols(),
                |j: int|
                    self.columns[j].subrange(0, i as int) + Seq::new(n, |k: int| value)
                        + self.columns[j].subrange(i as int, self.rows as int),
            ),
        }
    }

    /// The entries column after column.
    pub open spec fn column_major(self) -> Seq<Fixed> {
        Seq::new(
            self.rows * self.cols(),
            |k: int| self.at(k % (self.rows as int), k / (self.rows as int)),
        )
    }

    /// The matrix of the given shape whose entries, column after column, are
    /// `data`.
    pub open spec fn from_column_major(rows: nat, cols: nat, data: Seq<Fixed>) -> MatrixModel {
        MatrixModel {
            rows,
            columns: Seq::new(cols, |j: int| Seq::new(rows, |i: int| data[j * rows + i])),
        }
    }
}

/// A dense matrix: nalgebra's, with fixed-point entries.
///
/// nalgebra's matrix type cannot be declared to the verifier, so it is held
/// here out of its sight. What it holds is known by two names,
/// [`matrix_rows`] and [`matrix_columns`], and by what the five functions
/// below that touch it say of them.
#[verifier::external_body]
pub struct Matrix {
    inner: nalgebra::DMatrix<Fixed>,
}

/// The number of rows of nalgebra's matrix.
pub uninterp spec fn matrix_rows(m: Matrix) -> nat;

/// The entries of nalgebra's matrix, column by column.
pub uninterp spec fn matrix_columns(m: Matrix) -> Seq<Seq<Fixed>>;

impl View for Matrix {
    type V = MatrixModel;

    open spec fn view(&self) -> MatrixModel {
        MatrixModel { rows: matrix_rows(*self), columns: matrix_columns(*self) }
    }
}

/// `nalgebra::DMatrix::from_column_slice`: the matrix of the given shape whose
/// entries, column after column, are those of `data`. It panics on data of
/// another length than `rows * cols`, which is left out here.
#[verifier::external_body]
fn dense(rows: usize, cols: usize, data: &[Fixed]) -> (m: Matrix)
    requires
        data@.len() == rows * cols,
    ensures
        matrix_rows(m) == rows,
        matrix_columns(m) == MatrixModel::from_column_major(rows as nat, cols as nat, data@).columns,
{
    Matrix { inner: nalgebra::DMatrix::from_column_slice(rows, cols, data) }
}

/// `nalgebra::Matrix::nrows`: the number of rows.
#[verifier::external_body]
fn dense_nrows(m: &Matrix) -> (n: usize)
    ensures
        n == matrix_rows(*m),
{
    m.inner.nrows()
}

/// `nalgebra::Matrix::ncols`: the number of columns.
#[verifier::external_body]
fn dense_ncols(m: &Matrix) -> (n: usize)
    ensures
        n == matrix_columns(*m).len(),
{
    m.inner.ncols()
}

/// Indexing nalgebra's matrix by a pair: the entry in row `i` and column
/// `j`. It panics on an index outside the matrix, which is left out here.
#[verifier::external_body]
fn dense_entry(m: &Matrix, i: usize, j: usize) -> (r: Fixed)
    requires
        i < matrix_rows(*m),
        j < matrix_columns(*m).len(),
    ensures
        r == matrix_columns(*m)[j as int][i as int],
{
    m.inner[(i, j)]
}

/// `nalgebra::Matrix::insert_rows`: the matrix with `n` rows of `value` put
/// in before row `i`. It panics on an `i` beyond the number of rows, and its
/// sizes must be countable; both are left out here.
#[verifier::external_body]
fn dense_insert_rows(m: Matrix, i: usize, n: usize, value: Fixed) -> (r: Matrix)
    requires
        m@.wf(),
        i <= matrix_rows(m),
        (matrix_rows(m) + n) * matrix_columns(m).len() <= usize::MAX,
        matrix_rows(m) + n <= usize::MAX,
    ensures
        matrix_rows(r) == matrix_rows(m) + n,
        matrix_columns(r) == m@.with_rows(i as nat, n as nat, value).columns,
{
    Matrix { inner: m.inner.insert_rows(i, n, value) }
}

impl Matrix {
    pub open spec fn wf(&self) -> bool {
        self@.wf()
    }

    /// The matrix with `rows` rows and no column.
    pub fn empty(rows: usize) -> (m: Matrix)
        ensures
            m.wf(),
            m@.rows == rows,
            m@.columns.len() == 0,
    {
        let nothing: Vec<Fixed> = Vec::new();
        assert(rows * 0 == 0);
        dense(rows, 0, nothing.as_slice())
    }

    /// The number of rows.
    pub fn nrows(&self) -> (n: usize)
        ensures
            n == self@.rows,
    {
        dense_nrows(self)
    }

    /// The number of columns.
    pub fn ncols(&self) -> (n: usize)
        ensures
            n == self@.cols(),
    {
        dense_ncols(self)
    }

    /// The entry in row `i` and column `j`, where there is one.
    pub fn get(&self, i: usize, j: usize) -> (r: Option<Fixed>)
        ensures
            r == if i < self@.rows && j < self@.cols() {
                Some(self@.at(i as int, j as int))
            } else {
                None::<Fixed>
            },
    {
        if j < dense_ncols(self) && i < dense_nrows(self) {
            Some(dense_entry(self, i, j))
        } else {
            None
        }
    }

    /// The entry in row `i` and column `j`.
    pub fn at(&self, i: usize, j: usize) -> (r: Fixed)
        requires
            i < self@.rows,
            j < self@.cols(),
        ensures
            r == self@.at(i as int, j as int),
    {
        dense_entry(self, i, j)
    }

    /// A copy of column `j`, where there is one.
    pub fn column(&self, j: usize) -> (r: Option<Vec<Fixed>>)
        requires
            self.wf(),
        ensures
            match r {
                Some(c) => j < self@.cols() && c@ == self@.columns[j as int],
                None => j >= self@.cols(),
            },
    {
        if j < dense_ncols(self) {
            let rows: usize = dense_nrows(self);
            let mut column: Vec<Fixed> = Vec::new();
            let mut i: usize = 0;
            while i < rows
                invariant
                    i <= rows,
                    rows == self@.rows,
                    j < self@.cols(),
                    self.wf(),
                    column@ == self@.columns[j as int].subrange(0, i as int),
                decreases rows - i,
            {
                column.push(dense_entry(self, i, j));
                i += 1;
                assert(column@ =~= self@.columns[j as int].subrange(0, i as int));
            }
            assert(column@ =~= self@.columns[j as int]);
            Some(column)
        } else {
            None
        }
    }

    /// The matrix of the given shape whose entries, column after column, are
    /// `data`. Data of another length than `rows * cols` is refused.
    pub fn from_column_slice(rows: usize, cols: usize, data: &[Fixed]) -> (r: Result<Matrix, Error>)
        ensures
            data@.len() == rows * cols ==> r is Ok && r->Ok_0.wf() && r->Ok_0@
                == MatrixModel::from_column_major(rows as nat, cols as nat, data@),
            rows * cols > usize::MAX ==> r == Err::<Matrix, Error>(Error::Capacity),
            rows * cols <= usize::MAX && data@.len() != rows * cols ==> r == Err::<Matrix, Error>(
                Error::SizeMismatch { expected: (rows * cols) as usize, found: data@.len() as usize },
            ),
    {
        let len: usize = data.len();
        let total: usize = match rows.checked_mul(cols) {
            Some(t) => t,
            None => {
                return Err(Error::Capacity);
            },
        };
        if total != len {
            return Err(Error::SizeMismatch { expected: total, found: len });
        }
        Ok(dense(rows, cols, data))
    }

    /// The matrix with the given columns, each of `rows` entries. The first
    /// column of another length is refused.
    pub fn from_columns(rows: usize, columns: &Vec<Vec<Fixed>>) -> (r: Result<Matrix, Error>)
        ensures
            (forall|j: int| 0 <= j < columns@.len() ==> (#[trigger] columns@[j])@.len() == rows)
                ==> r is Ok && r->Ok_0.wf() && r->Ok_0@ == (MatrixModel {
                rows: rows as nat,
                columns: Seq::new(columns@.len(), |j: int| columns@[j]@),
            }),
            r is Err ==> exists|j: int|
                0 <= j < columns@.len() && (#[trigger] columns@[j])@.len() != rows && r->Err_0
                    == (Error::SizeMismatch { expected: rows, found: columns@[j]@.len() as usize })
                    && forall|c: int| 0 <= c < j ==> (#[trigger] columns@[c])@.len() == rows,
    {
        let cols: usize = columns.len();
        let mut data: Vec<Fixed> = Vec::new();
        let mut j: usize = 0;
        while j < cols
            invariant
                j <= cols,
                cols == columns@.len(),
                forall|c: int| 0 <= c < j ==> (#[trigger] columns@[c])@.len() == rows,
                data@.len() == j * rows,
                forall|k: int|
                    0 <= k < data@.len() ==> #[trigger] data@[k] == columns@[k / (rows as int)]@[k % (
                    rows as int)],
            decreases cols - j,
        {
            if columns[j].len() != rows {
                return Err(Error::SizeMismatch { expected: rows, found: columns[j].len() });
            }
            assert((j + 1) * rows == j * rows + rows) by (nonlinear_arith);
            let mut i: usize = 0;
            while i < rows
                invariant
                    i <= rows,
                    j < cols,
                    cols == columns@.len(),
                    columns@[j as int]@.len() == rows,
                    data@.len() == j * rows + i,
                    forall|k: int|
                        0 <= k < data@.len() ==> #[trigger] data@[k] == columns@[k / (
                        rows as int)]@[k % (rows as int)],
                decreases rows - i,
            {
                let ghost k = j * rows + i;
                assert(k % (rows as int) == i && k / (rows as int) == j) by (nonlinear_arith)
                    requires
                        k == j * rows + i,
                        0 <= i < rows,
                        0 <= j,
                ;
                data.push(columns[j][i]);
                i += 1;
            }
            j += 1;
        }
        let len: usize = data.len();
        assert(rows * cols == cols * rows) by (nonlinear_arith);
        let m = dense(rows, cols, data.as_slice());
        assert forall|c: int, i: int| 0 <= c < cols && 0 <= i < rows implies data@[c * rows + i]
            == #[trigger] columns@[c]@[i] by {
            let k = c * rows + i;
            assert(k % (rows as int) == i && k / (rows as int) == c && 0 <= k < cols * rows)
                by (nonlinear_arith)
                requires
                    k == c * rows + i,
                    0 <= i < rows,
                    0 <= c < cols,
            ;
        }
        assert(m@.columns =~~= Seq::new(columns@.len(), |j: int| columns@[j]@));
        Ok(m)
    }

    /// Puts `n` rows of `value` in before row `i`; `i` may be the number of
    /// rows, for rows at the end.
    pub fn insert_rows(self, i: usize, n: usize, value: Fixed) -> (r: Matrix)
        requires
            self.wf(),
            i <= self@.rows,
            self@.rows + n <= usize::MAX,
            (self@.rows + n) * self@.cols() <= usize::MAX,
        ensures
            r.wf(),
            r@ == self@.with_rows(i as nat, n as nat, value),
    {
        dense_insert_rows(self, i, n, value)
    }

    /// The product `self * rhs`. Where the number of columns of `self` is not
    /// the number of rows of `rhs`, the product is refused.
    pub fn product(&self, rhs: &Matrix) -> (r: Result<Matrix, Error>)
        requires
            self.wf(),
            rhs.wf(),
        ensures
            self@.cols() == rhs@.rows ==> r is Ok && r->Ok_0.wf() && r->Ok_0@ == self@.product(
                rhs@,
            ),
            self@.cols() != rhs@.rows ==> r == Err::<Matrix, Error>(
                Error::SizeMismatch { expected: self@.cols() as usize, found: rhs@.rows as usize },
            ),
    {
        let n: usize = self.ncols();
        if n != rhs.nrows() {
            return Err(Error::SizeMismatch { expected: n, found: rhs.nrows() });
        }
        let rows: usize = self.nrows();
        let cols: usize = rhs.ncols();
        let ghost a = self@;
        let ghost b = rhs@;
        let mut columns: Vec<Vec<Fixed>> = Vec::new();
        let mut j: usize = 0;
        while j < cols
            invariant
                j <= cols,
                a == self@,
                b == rhs@,
                a.wf(),
                b.wf(),
                n == a.cols(),
                n == b.rows,
                rows == a.rows,
                cols == b.cols(),
                columns@.len() == j,
                forall|c: int|
                    0 <= c < j ==> (#[trigger] columns@[c])@ == Seq::new(
                        a.rows,
                        |i: int| a.dot(b, i, c, n as nat),
                    ),
            decreases cols - j,
        {
            let mut column: Vec<Fixed> = Vec::new();
            let mut i: usize = 0;
            while i < rows
                invariant
                    i <= rows,
                    j < cols,
                    a == self@,
                    b == rhs@,
                    a.wf(),
                    b.wf(),
                    n == a.cols(),
                    n == b.rows,
                    rows == a.rows,
                    cols == b.cols(),
                    column@.len() == i,
                    forall|r: int| 0 <= r < i ==> #[trigger] column@[r] == a.dot(b, r, j as int, n as nat),
                decreases rows - i,
            {
                let mut acc: Fixed = Fixed::zero();
                let mut k: usize = 0;
                while k < n
                    invariant
                        k <= n,
                        i < rows,
                        j < cols,
                        a == self@,
                        b == rhs@,
                        a.wf(),
                        b.wf(),
                        n == a.cols(),
                        n == b.rows,
                        rows == a.rows,
                        cols == b.cols(),
                        acc == a.dot(b, i as int, j as int, k as nat),
                    decreases n - k,
                {
                    let x: Fixed = self.at(i, k);
                    let y: Fixed = rhs.at(k, j);
                    acc = acc.plus(x.times(y));
                    k += 1;
                }
                column.push(acc);
                i += 1;
            }
            assert(column@ =~= Seq::new(a.rows, |i: int| a.dot(b, i, j as int, n as nat)));
            columns.push(column);
            j += 1;
        }
        match Matrix::from_columns(rows, &columns) {
            Ok(m) => {
                assert(m@.columns =~~= a.product(b).columns);
                Ok(m)
            },
            Err(e) => Err(e),
        }
    }

    /// The entries column after column, where they can be counted.
    pub fn to_column_major(&self) -> (r: Option<Vec<Fixed>>)
        requires
            self.wf(),
        ensures
            match r {
                Some(v) => self@.rows * self@.cols() <= usize::MAX && v@ == self@.column_major(),
                None => self@.rows * self@.cols() > usize::MAX,
            },
    {
        let cols: usize = self.ncols();
        let rows: usize = self.nrows();
        if rows.checked_mul(cols).is_none() {
            return None;
        }
        let ghost m = self@;
        let mut out: Vec<Fixed> = Vec::new();
        let mut j: usize = 0;
        while j < cols
            invariant
                j <= cols,
                cols == m.cols(),
                rows == m.rows,
                m == self@,
                m.wf(),
                rows * cols <= usize::MAX,
                out@.len() == j * rows,
                forall|k: int|
                    0 <= k < out@.len() ==> #[trigger] out@[k] == m.at(
                        k % (rows as int),
                        k / (rows as int),
                    ),
            decreases cols - j,
        {
            assert((j + 1) * rows == j * rows + rows && (j + 1) * rows <= cols * rows) by (nonlinear_arith)
                requires
                    j < cols,
            ;
            assert(rows * cols == cols * rows) by (nonlinear_arith);
            let mut i: usize = 0;
            while i < rows
                invariant
                    i <= rows,
                    j < cols,
                    cols == m.cols(),
                    rows == m.rows,
                    m == self@,
                    m.wf(),
                    j * rows + rows <= usize::MAX,
                    out@.len() == j * rows + i,
                    forall|k: int|
                        0 <= k < out@.len() ==> #[trigger] out@[k] == m.at(
                            k % (rows as int),
                            k / (rows as int),
                        ),
                decreases rows - i,
            {
                let ghost k = j * rows + i;
                assert(k % (rows as int) == i && k / (rows as int) == j) by (nonlinear_arith)
                    requires
                        k == j * rows + i,
                        0 <= i < rows,
                        0 <= j,
                ;
                out.push(self.at(i, j));
                i += 1;
            }
            j += 1;
        }
        assert(rows * cols == cols * rows) by (nonlinear_arith);
        assert(out@ =~= m.column_major());
        Some(out)
    }
}

/// The pseudo-inverse `pinv` between the transforms that are given:
/// `left * pinv * right`, the product on the left taken first. A side that is
/// absent is left out.
pub open spec fn composed(
    left: Option<MatrixModel>,
    pinv: MatrixModel,
    right: Option<MatrixModel>,
) -> MatrixModel {
    match (left, right) {
        (Some(l), Some(r)) => l.product(pinv).product(r),
        (Some(l), None) => l.product(pinv),
        (None, Some(r)) => pinv.product(r),
        (None, None) => pinv,
    }
}

/// Whether the shapes of `left * pinv * right` fit.
pub open spec fn composable(
    left: Option<MatrixModel>,
    pinv: MatrixModel,
    right: Option<MatrixModel>,
) -> bool {
    &&& left is Some ==> left->0.cols() == pinv.rows
    &&& right is Some ==> pinv.cols() == right->0.rows
}

/// The view of a matrix that may be absent.
pub open spec fn model_of(m: Option<&Matrix>) -> Option<MatrixModel> {
    match m {
        Some(m) => Some(m@),
        None => None,
    }
}

/// Puts the pseudo-inverse between the transforms that are given:
/// `left * pinv * right`. Shapes that do not fit are refused, those on the
/// left first.
pub fn compose(left: Option<&Matrix>, pinv: Matrix, right: Option<&Matrix>) -> (r: Result<
    Matrix,
    Error,
>)
    requires
        pinv.wf(),
        left is Some ==> left->0.wf(),
        right is Some ==> right->0.wf(),
    ensures
        composable(model_of(left), pinv@, model_of(right)) ==> r is Ok && r->Ok_0.wf() && r->Ok_0@
            == composed(model_of(left), pinv@, model_of(right)),
        left is Some && left->0@.cols() != pinv@.rows ==> r == Err::<Matrix, Error>(
            Error::SizeMismatch { expected: left->0@.cols() as usize, found: pinv@.rows as usize },
        ),
        !(left is Some && left->0@.cols() != pinv@.rows) && right is Some && pinv@.cols()
            != right->0@.rows ==> r == Err::<Matrix, Error>(
            Error::SizeMismatch { expected: pinv@.cols() as usize, found: right->0@.rows as usize },
        ),
{
    let ghost p = pinv@;
    let first: Matrix = match left {
        Some(l) => {
            match l.product(&pinv) {
                Ok(m) => m,
                Err(e) => {
                    return Err(e);
                },
            }
        },
        None => pinv,
    };
    assert(first@.cols() == p.cols());
    match right {
        Some(r) => first.product(r),
        None => Ok(first),
    }
}

} // verus!
