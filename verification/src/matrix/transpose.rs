//! Transposition: rows become columns.

use crate::matrix::inner::has_shape;
use crate::matrix::inner::MatrixInner;
use vstd::prelude::*;

verus! {

/// A value that can be transposed into a new one.
pub trait Transpose: Sized {
    type Output;

    /// Whether the value can be transposed.
    spec fn transpose_req(self) -> bool;

    fn transpose(self) -> (out: Self::Output)
        requires
            self.transpose_req(),
    ;
}

/// A value that can be transposed in place.
pub trait TransposeAssign<Rhs = Self> {
    fn transpose_assign(&mut self);
}

/// The transpose of `a`, a matrix of `cols` columns: cell `(c, r)` is cell `(r, c)` of `a`.
pub open spec fn mat_transpose<T>(a: Seq<Seq<T>>, cols: nat) -> Seq<Seq<T>> {
    Seq::new(cols, |c: int| Seq::new(a.len(), |r: int| a[r][c]))
}

impl<const R: usize, const C: usize, T: Copy + Clone> Transpose for MatrixInner<R, C, T> {
    type Output = MatrixInner<C, R, T>;

    /// A matrix has at least one row and one column.
    open spec fn transpose_req(self) -> bool {
        R >= 1 && C >= 1
    }

    /// The transpose of the matrix.
    fn transpose(self) -> (out: MatrixInner<C, R, T>)
        ensures
            out@ == mat_transpose(self@, C as nat),
    {
        let mut out = MatrixInner { elements: [[self.elements[0][0]; R]; C] };
        let mut r: usize = 0;
        while r < R
            invariant
                r <= R,
                forall|i: int, j: int|
                    0 <= i < r && 0 <= j < C ==> out@[j][i] == #[trigger] self@[i][j],
            decreases R - r,
        {
            let mut c: usize = 0;
            while c < C
                invariant
                    r < R,
                    c <= C,
                    forall|i: int, j: int|
                        0 <= i < r && 0 <= j < C ==> out@[j][i] == #[trigger] self@[i][j],
                    forall|j: int| 0 <= j < c ==> out@[j][r as int] == #[trigger] self@[r as int][j],
                decreases C - c,
            {
                out.elements[c][r] = self.elements[r][c];
                c += 1;
            }
            r += 1;
        }
        proof {
            assert(out@ =~~= mat_transpose(self@, C as nat));
        }
        out
    }
}

/// Whether the in-place transposition has already exchanged cell `(i, j)`
/// with its mirror image when it stands at row `r`, column `c`.
pub open spec fn exchanged(i: int, j: int, r: int, c: int) -> bool {
    ||| i < r || j < r
    ||| i == r && j < c
    ||| j == r && i < c
}

impl<const R: usize, T: Copy + Clone> TransposeAssign for MatrixInner<R, R, T> {
    /// Transposes the square matrix in place: each cell above the diagonal
    /// changes places with its mirror image below.
    fn transpose_assign(&mut self)
        ensures
            final(self)@ == mat_transpose(old(self)@, R as nat),
    {
        let ghost before = self@;
        let mut r: usize = 0;
        while r < R
            invariant
                r <= R,
                has_shape(before, R as nat, R as nat),
                forall|i: int, j: int|
                    0 <= i < R && 0 <= j < R ==> self@[i][j] == if exchanged(i, j, r as int, 0) {
                        before[j][i]
                    } else {
                        #[trigger] before[i][j]
                    },
            decreases R - r,
        {
            let mut c: usize = r;
            while c < R
                invariant
                    r < R,
                    r <= c <= R,
                    has_shape(before, R as nat, R as nat),
                    forall|i: int, j: int|
                        0 <= i < R && 0 <= j < R ==> self@[i][j] == if exchanged(
                            i,
                            j,
                            r as int,
                            c as int,
                        ) {
                            before[j][i]
                        } else {
                            #[trigger] before[i][j]
                        },
                decreases R - c,
            {
                let ghost mid = self@;
                let upper = self.elements[r][c];
                let lower = self.elements[c][r];
                self.elements[r][c] = lower;
                let ghost half = self@;
                self.elements[c][r] = upper;
                proof {
                    assert forall|i: int, j: int| 0 <= i < R && 0 <= j < R implies self@[i][j]
                        == if exchanged(i, j, r as int, c + 1) {
                        before[j][i]
                    } else {
                        #[trigger] before[i][j]
                    } by {
                        assert(half[i][j] == if i == r && j == c {
                            lower
                        } else {
                            mid[i][j]
                        });
                        assert(self@[i][j] == if i == c && j == r {
                            upper
                        } else {
                            half[i][j]
                        });
                        assert(mid[i][j] == if exchanged(i, j, r as int, c as int) {
                            before[j][i]
                        } else {
                            before[i][j]
                        });
                        assert(mid[j][i] == if exchanged(j, i, r as int, c as int) {
                            before[i][j]
                        } else {
                            before[j][i]
                        });
                    }
                }
                c += 1;
            }
            r += 1;
        }
        proof {
            assert(self@ =~~= mat_transpose(before, R as nat));
        }
    }
}

} // verus!
