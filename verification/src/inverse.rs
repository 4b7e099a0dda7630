//! The pseudo-inverse of a poke matrix, from its singular value
//! decomposition.
//!
//! The decomposition itself is numerical work that is done elsewhere. What
//! is decided here is which singular values count, when the inversion
//! fails, and how the factors are put together again.
use vstd::prelude::*;
use crate::error::Error;
use crate::fixed::{Fixed, SCALE};
use crate::matrix::{Matrix, MatrixModel};

verus! {

/// A singular value decomposition `u * diag(singular) * v_t`.
pub struct Svd {
    pub u: Matrix,
    pub singular: Vec<Fixed>,
    pub v_t: Matrix,
}

impl Svd {
    /// Whether the shapes of the three factors fit.
    pub open spec fn fits(&self) -> bool {
        &&& self.u@.cols() == self.singular@.len()
        &&& self.v_t@.rows == self.singular@.len()
    }

    pub open spec fn wf(&self) -> bool {
        &&& self.u.wf()
        &&& self.v_t.wf()
    }
}

/// The largest of the first `n` values; the first value for `n == 0`.
pub open spec fn largest(s: Seq<Fixed>, n: nat) -> Fixed
    decreases n,
{
    if n <= 1 {
        s[0]
    } else if s[n - 1].raw > largest(s, (n - 1) as nat).raw {
        s[n - 1]
    } else {
        largest(s, (n - 1) as nat)
    }
}

/// The smallest of the first `n` values; the first value for `n == 0`.
pub open spec fn smallest(s: Seq<Fixed>, n: nat) -> Fixed
    decreases n,
{
    if n <= 1 {
        s[0]
    } else if s[n - 1].raw < smallest(s, (n - 1) as nat).raw {
        s[n - 1]
    } else {
        smallest(s, (n - 1) as nat)
    }
}

/// The condition number: the largest singular value over the smallest.
pub open spec fn spec_condition_number(s: Seq<Fixed>) -> Fixed {
    largest(s, s.len()).spec_over(smallest(s, s.len()))
}

/// The threshold under a tolerance: `tolerance` times the largest singular
/// value.
pub open spec fn threshold(s: Seq<Fixed>, tolerance: Fixed) -> Fixed {
    tolerance.spec_times(largest(s, s.len()))
}

/// The inverse of a singular value that counts, and zero for one that does
/// not. A singular value counts where it is above zero and not below the
/// threshold.
pub open spec fn inverted(s: Fixed, threshold: Fixed) -> Fixed {
    if s.raw > 0 && s.raw >= threshold.raw {
        (Fixed { raw: SCALE }).spec_over(s)
    } else {
        Fixed::spec_zero()
    }
}

/// The sum of the first `n` terms `v_t[k][i] * inverse(k) * u[j][k]`, added
/// up from the first.
pub open spec fn pinv_entry(
    u: MatrixModel,
    s: Seq<Fixed>,
    v_t: MatrixModel,
    threshold: Fixed,
    i: int,
    j: int,
    n: nat,
) -> Fixed
    decreases n,
{
    if n == 0 {
        Fixed::spec_zero()
    } else {
        pinv_entry(u, s, v_t, threshold, i, j, (n - 1) as nat).spec_plus(
            v_t.at(n - 1, i).spec_times(inverted(s[n - 1], threshold)).spec_times(u.at(j, n - 1)),
        )
    }
}

/// The pseudo-inverse `v * diag(inverse) * u^T`: as many rows as `v_t` has
/// columns and as many columns as `u` has rows.
pub open spec fn recomposed(u: MatrixModel, s: Seq<Fixed>, v_t: MatrixModel, tolerance: Fixed) -> MatrixModel {
    MatrixModel {
        rows: v_t.cols(),
        columns: Seq::new(
            u.rows,
            |j: int|
                Seq::new(
                    v_t.cols(),
                    |i: int| pinv_entry(u, s, v_t, threshold(s, tolerance), i, j, s.len()),
                ),
        ),
    }
}

fn extremes(s: &Vec<Fixed>) -> (r: (Fixed, Fixed))
    requires
        s@.len() > 0,
    ensures
        r.0 == largest(s@, s@.len()),
        r.1 == smallest(s@, s@.len()),
{
    let mut hi: Fixed = s[0];
    let mut lo: Fixed = s[0];
    let mut k: usize = 1;
    while k < s.len()
        invariant
            1 <= k <= s@.len(),
            hi == largest(s@, k as nat),
            lo == smallest(s@, k as nat),
        decreases s@.len() - k,
    {
        if s[k].raw > hi.raw {
            hi = s[k];
        }
        if s[k].raw < lo.raw {
            lo = s[k];
        }
        k += 1;
    }
    (hi, lo)
}

/// The condition number of a matrix with the given singular values: the
/// largest over the smallest. Without a singular value there is none.
pub fn condition_number(singular: &Vec<Fixed>) -> (r: Option<Fixed>)
    ensures
        r == if singular@.len() == 0 {
            None::<Fixed>
        } else {
            Some(spec_condition_number(singular@))
        },
{
    if singular.len() == 0 {
        None
    } else {
        let (hi, lo) = extremes(singular);
        Some(hi.over(lo))
    }
}

/// Whether the inversion fails: the decomposition did not converge, or no
/// singular value is above zero.
pub open spec fn fails(svd: Option<Svd>) -> bool {
    match svd {
        None => true,
        Some(d) => d.singular@.len() == 0 || largest(d.singular@, d.singular@.len()).raw <= 0,
    }
}

/// The Moore-Penrose pseudo-inverse from a decomposition, `None` standing
/// for a decomposition that did not converge. Singular values below
/// `tolerance` times the largest are treated as zero, and so is a singular
/// value of zero; one that equals the threshold is inverted.
pub fn pseudo_inverse(svd: Option<Svd>, tolerance: Fixed) -> (r: Result<Matrix, Error>)
    requires
        svd is Some ==> svd->0.wf(),
    ensures
        fails(svd) ==> r == Err::<Matrix, Error>(Error::InversionFailed),
        !fails(svd) && svd->0.u@.cols() != svd->0.singular@.len() ==> r == Err::<Matrix, Error>(
            Error::SizeMismatch {
                expected: svd->0.singular@.len() as usize,
                found: svd->0.u@.cols() as usize,
            },
        ),
        !fails(svd) && svd->0.u@.cols() == svd->0.singular@.len() && svd->0.v_t@.rows
            != svd->0.singular@.len() ==> r == Err::<Matrix, Error>(
            Error::SizeMismatch {
                expected: svd->0.singular@.len() as usize,
                found: svd->0.v_t@.rows as usize,
            },
        ),
        !fails(svd) && svd->0.fits() ==> r is Ok && r->Ok_0.wf() && r->Ok_0@ == recomposed(
            svd->0.u@,
            svd->0.singular@,
            svd->0.v_t@,
            tolerance,
        ),
        r is Ok ==> r->Ok_0@.rows == svd->0.v_t@.cols() && r->Ok_0@.cols() == svd->0.u@.rows,
{
    let d: Svd = match svd {
        Some(d) => d,
        None => {
            return Err(Error::InversionFailed);
        },
    };
    let n: usize = d.singular.len();
    if n == 0 {
        return Err(Error::InversionFailed);
    }
    let (hi, lo) = extremes(&d.singular);
    if hi.raw <= 0 {
        return Err(Error::InversionFailed);
    }
    if d.u.ncols() != n {
        return Err(Error::SizeMismatch { expected: n, found: d.u.ncols() });
    }
    if d.v_t.nrows() != n {
        return Err(Error::SizeMismatch { expected: n, found: d.v_t.nrows() });
    }
    let limit: Fixed = tolerance.times(hi);
    let one: Fixed = Fixed::from_raw(SCALE);
    let rows: usize = d.v_t.ncols();
    let cols: usize = d.u.nrows();
    let ghost u = d.u@;
    let ghost v_t = d.v_t@;
    let ghost s = d.singular@;
    let mut out: Vec<Vec<Fixed>> = Vec::new();
    let mut j: usize = 0;
    while j < cols
        invariant
            j <= cols,
            d.wf(),
            u == d.u@,
            v_t == d.v_t@,
            s == d.singular@,
            n == s.len(),
            u.cols() == n,
            v_t.rows == n,
            rows == v_t.cols(),
            cols == u.rows,
            one.raw == SCALE,
            limit == threshold(s, tolerance),
            out@.len() == j,
            forall|c: int|
                0 <= c < j ==> (#[trigger] out@[c])@ == Seq::new(
                    rows as nat,
                    |i: int| pinv_entry(u, s, v_t, limit, i, c, n as nat),
                ),
        decreases cols - j,
    {
        let mut column: Vec<Fixed> = Vec::new();
        let mut i: usize = 0;
        while i < rows
            invariant
                i <= rows,
                j < cols,
                d.wf(),
                u == d.u@,
                v_t == d.v_t@,
                s == d.singular@,
                n == s.len(),
                u.cols() == n,
                v_t.rows == n,
                rows == v_t.cols(),
                cols == u.rows,
                one.raw == SCALE,
                column@.len() == i,
                forall|r: int|
                    0 <= r < i ==> #[trigger] column@[r] == pinv_entry(
                        u,
                        s,
                        v_t,
                        limit,
                        r,
                        j as int,
                        n as nat,
                    ),
            decreases rows - i,
        {
            let mut acc: Fixed = Fixed::zero();
            let mut k: usize = 0;
            while k < n
                invariant
                    k <= n,
                    i < rows,
                    j < cols,
                    d.wf(),
                    u == d.u@,
                    v_t == d.v_t@,
                    s == d.singular@,
                    n == s.len(),
                    u.cols() == n,
                    v_t.rows == n,
                    rows == v_t.cols(),
                    cols == u.rows,
                    one.raw == SCALE,
                    acc == pinv_entry(u, s, v_t, limit, i as int, j as int, k as nat),
                decreases n - k,
            {
                let value: Fixed = d.singular[k];
                let inverse: Fixed = if value.raw > 0 && value.raw >= limit.raw {
                    one.over(value)
                } else {
                    Fixed::zero()
                };
                acc = acc.plus(d.v_t.at(k, i).times(inverse).times(d.u.at(j, k)));
                k += 1;
            }
            column.push(acc);
            i += 1;
        }
        assert(column@ =~= Seq::new(
            rows as nat,
            |i: int| pinv_entry(u, s, v_t, limit, i, j as int, n as nat),
        ));
        out.push(column);
        j += 1;
    }
    match Matrix::from_columns(rows, &out) {
        Ok(pinv) => {
            assert(pinv@.columns =~~= recomposed(u, s, v_t, tolerance).columns);
            Ok(pinv)
        },
        Err(e) => Err(e),
    }
}

/// The condition number of a matrix whose singular values are not negative
/// and not all zero is at least one.
pub proof fn lemma_condition_number_at_least_one(s: Seq<Fixed>)
    requires
        s.len() > 0,
        forall|k: int| 0 <= k < s.len() ==> (#[trigger] s[k]).raw >= 0,
        largest(s, s.len()).raw > 0,
    ensures
        spec_condition_number(s).raw >= SCALE,
{
    lemma_extremes(s, s.len());
    let hi = largest(s, s.len()).raw as int;
    let lo = smallest(s, s.len()).raw as int;
    if lo > 0 {
        assert((hi * SCALE) / lo >= SCALE) by (nonlinear_arith)
            requires
                hi >= lo,
                lo > 0,
                SCALE > 0,
        ;
    }
}

/// The largest of the first `n` values is one of them and not below the
/// smallest, which is one of them too.
proof fn lemma_extremes(s: Seq<Fixed>, n: nat)
    requires
        0 < n <= s.len(),
        forall|k: int| 0 <= k < s.len() ==> (#[trigger] s[k]).raw >= 0,
    ensures
        largest(s, n).raw >= smallest(s, n).raw,
        smallest(s, n).raw >= 0,
    decreases n,
{
    if n > 1 {
        lemma_extremes(s, (n - 1) as nat);
    }
}

} // verus!
