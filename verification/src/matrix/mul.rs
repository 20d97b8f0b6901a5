//! The product of two matrices, and the product of a matrix and a scalar.

use crate::matrix::inner::has_shape;
use crate::matrix::inner::MatrixInner;
use std::ops::Add;
use std::ops::Mul;
use std::ops::MulAssign;
use vstd::prelude::*;
use vstd::std_specs::ops::AddSpec;
use vstd::std_specs::ops::MulSpec;

verus! {

/// The sum of the products `row[k] * b[k][c]` for `k` from 0 to `m`.
///
/// The first product starts the sum and the others are added to it in
/// ascending order of `k`; no additive identity takes part.
pub open spec fn mul_cell<T: Mul<T, Output = T> + Add<T, Output = T>>(
    row: Seq<T>,
    b: Seq<Seq<T>>,
    c: int,
    m: nat,
) -> T
    decreases m,
{
    let p = row[m as int].mul_spec(b[m as int][c]);
    if m == 0 {
        p
    } else {
        mul_cell(row, b, c, (m - 1) as nat).add_spec(p)
    }
}

/// The scalar accepts every product and every addition that `mul_cell` takes.
pub open spec fn mul_cell_req<T: Mul<T, Output = T> + Add<T, Output = T>>(
    row: Seq<T>,
    b: Seq<Seq<T>>,
    c: int,
    m: nat,
) -> bool
    decreases m,
{
    &&& row[m as int].mul_req(b[m as int][c])
    &&& m > 0 ==> {
        &&& mul_cell_req(row, b, c, (m - 1) as nat)
        &&& mul_cell(row, b, c, (m - 1) as nat).add_req(row[m as int].mul_spec(b[m as int][c]))
    }
}

/// The product of `a` and `b`: cell `(r, c)` is row `r` of `a` contracted
/// with column `c` of `b`.
pub open spec fn mat_mul<T: Mul<T, Output = T> + Add<T, Output = T>>(
    a: Seq<Seq<T>>,
    b: Seq<Seq<T>>,
) -> Seq<Seq<T>> {
    Seq::new(
        a.len(),
        |r: int| Seq::new(b[0].len(), |c: int| mul_cell(a[r], b, c, (b.len() - 1) as nat)),
    )
}

/// The contracted dimension is not empty, and the scalar accepts every
/// operation that the product of `a` and `b` takes.
pub open spec fn mat_mul_req<T: Mul<T, Output = T> + Add<T, Output = T>>(
    a: Seq<Seq<T>>,
    b: Seq<Seq<T>>,
) -> bool {
    &&& b.len() >= 1
    &&& forall|r: int, c: int|
        0 <= r < a.len() && 0 <= c < b[0].len() ==> #[trigger] mul_cell_req(
            a[r],
            b,
            c,
            (b.len() - 1) as nat,
        )
}

/// What `mul_cell_req` asks up to `m` it asks up to every `k` below `m`.
pub proof fn lemma_mul_cell_req_prefix<T: Mul<T, Output = T> + Add<T, Output = T>>(
    row: Seq<T>,
    b: Seq<Seq<T>>,
    c: int,
    m: nat,
    k: nat,
)
    requires
        mul_cell_req(row, b, c, m),
        k <= m,
    ensures
        mul_cell_req(row, b, c, k),
    decreases m,
{
    if k < m {
        lemma_mul_cell_req_prefix(row, b, c, (m - 1) as nat, k);
    }
}

/// Contracts `row` with column `c` of `rhs`.
fn contract<const M: usize, const C: usize, T: Copy + Mul<T, Output = T> + Add<T, Output = T>>(
    row: &[T; M],
    rhs: &MatrixInner<M, C, T>,
    c: usize,
) -> (acc: T)
    requires
        M >= 1,
        c < C,
        T::obeys_mul_spec(),
        T::obeys_add_spec(),
        mul_cell_req(row@, rhs@, c as int, (M - 1) as nat),
    ensures
        acc == mul_cell(row@, rhs@, c as int, (M - 1) as nat),
{
    proof {
        lemma_mul_cell_req_prefix(row@, rhs@, c as int, (M - 1) as nat, 0);
    }
    let mut acc = row[0] * rhs.elements[0][c];
    let mut m: usize = 1;
    while m < M
        invariant
            1 <= m <= M,
            c < C,
            T::obeys_mul_spec(),
            T::obeys_add_spec(),
            mul_cell_req(row@, rhs@, c as int, (M - 1) as nat),
            acc == mul_cell(row@, rhs@, c as int, (m - 1) as nat),
        decreases M - m,
    {
        proof {
            lemma_mul_cell_req_prefix(row@, rhs@, c as int, (M - 1) as nat, m as nat);
        }
        acc = acc + row[m] * rhs.elements[m][c];
        m += 1;
    }
    acc
}

impl<const R: usize, const M: usize, const C: usize, T: Copy + Mul<T, Output = T> + Add<T, Output = T>> vstd::std_specs::ops::MulSpecImpl<&MatrixInner<M, C, T>> for &MatrixInner<R, M, T> {
    open spec fn obeys_mul_spec() -> bool {
        true
    }

    /// The product has at least one row and one column, the scalar's
    /// operators are what their specifications say, and the scalar accepts
    /// every operation that the product takes.
    open spec fn mul_req(self, rhs: &MatrixInner<M, C, T>) -> bool {
        &&& R >= 1 && C >= 1
        &&& T::obeys_mul_spec() && T::obeys_add_spec()
        &&& mat_mul_req(self@, rhs@)
    }

    open spec fn mul_spec(self, rhs: &MatrixInner<M, C, T>) -> MatrixInner<R, C, T> {
        MatrixInner::of(mat_mul(self@, rhs@))
    }
}

impl<const R: usize, const M: usize, const C: usize, T: Copy + Mul<T, Output = T> + Add<T, Output = T>> Mul<&MatrixInner<M, C, T>> for &MatrixInner<R, M, T> {
    type Output = MatrixInner<R, C, T>;

    /// The product of two matrices. The other three forms of `*` between
    /// matrices come here.
    fn mul(self, rhs: &MatrixInner<M, C, T>) -> (out: MatrixInner<R, C, T>)
        ensures
            out@ == mat_mul(self@, rhs@),
    {
        let mut out = MatrixInner { elements: [[self.elements[0][0]; C]; R] };
        let mut r: usize = 0;
        while r < R
            invariant
                r <= R,
                M >= 1,
                T::obeys_mul_spec(),
                T::obeys_add_spec(),
                mat_mul_req(self@, rhs@),
                forall|i: int, j: int|
                    0 <= i < r && 0 <= j < C ==> out@[i][j] == #[trigger] mul_cell(
                        self@[i],
                        rhs@,
                        j,
                        (M - 1) as nat,
                    ),
            decreases R - r,
        {
            let mut c: usize = 0;
            while c < C
                invariant
                    r < R,
                    c <= C,
                    M >= 1,
                    T::obeys_mul_spec(),
                    T::obeys_add_spec(),
                    mat_mul_req(self@, rhs@),
                    forall|i: int, j: int|
                        0 <= i < r && 0 <= j < C ==> out@[i][j] == #[trigger] mul_cell(
                            self@[i],
                            rhs@,
                            j,
                            (M - 1) as nat,
                        ),
                    forall|j: int|
                        0 <= j < c ==> out@[r as int][j] == #[trigger] mul_cell(
                            self@[r as int],
                            rhs@,
                            j,
                            (M - 1) as nat,
                        ),
                decreases C - c,
            {
                assert(mul_cell_req(self@[r as int], rhs@, c as int, (M - 1) as nat));
                out.elements[r][c] = contract(&self.elements[r], rhs, c);
                c += 1;
            }
            r += 1;
        }
        proof {
            assert(out@ =~~= mat_mul(self@, rhs@));
            out.lemma_of_view();
        }
        out
    }
}

impl<const R: usize, const M: usize, const C: usize, T: Copy + Mul<T, Output = T> + Add<T, Output = T>> vstd::std_specs::ops::MulSpecImpl<MatrixInner<M, C, T>> for MatrixInner<R, M, T> {
    open spec fn obeys_mul_spec() -> bool {
        true
    }

    open spec fn mul_req(self, rhs: MatrixInner<M, C, T>) -> bool {
        &&& R >= 1 && C >= 1
        &&& T::obeys_mul_spec() && T::obeys_add_spec()
        &&& mat_mul_req(self@, rhs@)
    }

    open spec fn mul_spec(self, rhs: MatrixInner<M, C, T>) -> MatrixInner<R, C, T> {
        MatrixInner::of(mat_mul(self@, rhs@))
    }
}

impl<const R: usize, const M: usize, const C: usize, T: Copy + Mul<T, Output = T> + Add<T, Output = T>> Mul<MatrixInner<M, C, T>> for MatrixInner<R, M, T> {
    type Output = MatrixInner<R, C, T>;

    fn mul(self, rhs: MatrixInner<M, C, T>) -> (out: MatrixInner<R, C, T>)
        ensures
            out@ == mat_mul(self@, rhs@),
    {
        (&self).mul(&rhs)
    }
}

impl<const R: usize, const M: usize, const C: usize, T: Copy + Mul<T, Output = T> + Add<T, Output = T>> vstd::std_specs::ops::MulSpecImpl<&MatrixInner<M, C, T>> for MatrixInner<R, M, T> {
    open spec fn obeys_mul_spec() -> bool {
        true
    }

    open spec fn mul_req(self, rhs: &MatrixInner<M, C, T>) -> bool {
        &&& R >= 1 && C >= 1
        &&& T::obeys_mul_spec() && T::obeys_add_spec()
        &&& mat_mul_req(self@, rhs@)
    }

    open spec fn mul_spec(self, rhs: &MatrixInner<M, C, T>) -> MatrixInner<R, C, T> {
        MatrixInner::of(mat_mul(self@, rhs@))
    }
}

impl<const R: usize, const M: usize, const C: usize, T: Copy + Mul<T, Output = T> + Add<T, Output = T>> Mul<&MatrixInner<M, C, T>> for MatrixInner<R, M, T> {
    type Output = MatrixInner<R, C, T>;

    fn mul(self, rhs: &MatrixInner<M, C, T>) -> (out: MatrixInner<R, C, T>)
        ensures
            out@ == mat_mul(self@, rhs@),
    {
        (&self).mul(rhs)
    }
}

impl<const R: usize, const M: usize, const C: usize, T: Copy + Mul<T, Output = T> + Add<T, Output = T>> vstd::std_specs::ops::MulSpecImpl<MatrixInner<M, C, T>> for &MatrixInner<R, M, T> {
    open spec fn obeys_mul_spec() -> bool {
        true
    }

    open spec fn mul_req(self, rhs: MatrixInner<M, C, T>) -> bool {
        &&& R >= 1 && C >= 1
        &&& T::obeys_mul_spec() && T::obeys_add_spec()
        &&& mat_mul_req(self@, rhs@)
    }

    open spec fn mul_spec(self, rhs: MatrixInner<M, C, T>) -> MatrixInner<R, C, T> {
        MatrixInner::of(mat_mul(self@, rhs@))
    }
}

impl<const R: usize, const M: usize, const C: usize, T: Copy + Mul<T, Output = T> + Add<T, Output = T>> Mul<MatrixInner<M, C, T>> for &MatrixInner<R, M, T> {
    type Output = MatrixInner<R, C, T>;

    fn mul(self, rhs: MatrixInner<M, C, T>) -> (out: MatrixInner<R, C, T>)
        ensures
            out@ == mat_mul(self@, rhs@),
    {
        self.mul(&rhs)
    }
}

impl<const R: usize, T: Copy + Mul<T, Output = T> + Add<T, Output = T>> MulAssign<&MatrixInner<R, R, T>> for MatrixInner<R, R, T> {
    /// Multiplies the square matrix by `rhs` in place.
    ///
    /// Each row of the product is computed into a buffer before it replaces
    /// the row it was computed from.
    fn mul_assign(&mut self, rhs: &MatrixInner<R, R, T>)
        requires
            R >= 1,
            T::obeys_mul_spec() && T::obeys_add_spec(),
            mat_mul_req(old(self)@, rhs@),
        ensures
            final(self)@ == mat_mul(old(self)@, rhs@),
    {
        let ghost before = self@;
        let mut r: usize = 0;
        while r < R
            invariant
                r <= R,
                R >= 1,
                T::obeys_mul_spec(),
                T::obeys_add_spec(),
                has_shape(before, R as nat, R as nat),
                mat_mul_req(before, rhs@),
                forall|i: int| r <= i < R ==> self@[i] == #[trigger] before[i],
                forall|i: int, j: int|
                    0 <= i < r && 0 <= j < R ==> self@[i][j] == #[trigger] mul_cell(
                        before[i],
                        rhs@,
                        j,
                        (R - 1) as nat,
                    ),
            decreases R - r,
        {
            let mut tmp = self.elements[r];
            let mut c: usize = 0;
            while c < R
                invariant
                    r < R,
                    c <= R,
                    T::obeys_mul_spec(),
                    T::obeys_add_spec(),
                    has_shape(before, R as nat, R as nat),
                    mat_mul_req(before, rhs@),
                    self.elements[r as int]@ == before[r as int],
                    forall|j: int|
                        0 <= j < c ==> tmp@[j] == #[trigger] mul_cell(
                            before[r as int],
                            rhs@,
                            j,
                            (R - 1) as nat,
                        ),
                decreases R - c,
            {
                assert(mul_cell_req(before[r as int], rhs@, c as int, (R - 1) as nat));
                tmp[c] = contract(&self.elements[r], rhs, c);
                c += 1;
            }
            let ghost rows = self@;
            self.elements[r] = tmp;
            proof {
                assert forall|i: int| r < i < R implies self@[i] == #[trigger] before[i] by {
                    assert(self@[i] == rows[i]);
                }
                assert forall|i: int, j: int| 0 <= i < r + 1 && 0 <= j < R implies self@[i][j]
                    == #[trigger] mul_cell(before[i], rhs@, j, (R - 1) as nat) by {
                    if i < r {
                        assert(self@[i] == rows[i]);
                    }
                }
            }
            r += 1;
        }
        proof {
            assert(self@ =~~= mat_mul(before, rhs@));
        }
    }
}

impl<const R: usize, T: Copy + Mul<T, Output = T> + Add<T, Output = T>> MulAssign<MatrixInner<R, R, T>> for MatrixInner<R, R, T> {
    fn mul_assign(&mut self, rhs: MatrixInner<R, R, T>)
        requires
            R >= 1,
            T::obeys_mul_spec() && T::obeys_add_spec(),
            mat_mul_req(old(self)@, rhs@),
        ensures
            final(self)@ == mat_mul(old(self)@, rhs@),
    {
        self.mul_assign(&rhs)
    }
}

/// The matrix `a` with every cell multiplied by the scalar `k`.
pub open spec fn mat_scale<T: Mul<T, Output = T>>(a: Seq<Seq<T>>, k: T) -> Seq<Seq<T>> {
    Seq::new(a.len(), |r: int| Seq::new(a[r].len(), |c: int| a[r][c].mul_spec(k)))
}

/// The scalar accepts every product that `mat_scale` takes.
pub open spec fn mat_scale_req<T: Mul<T, Output = T>>(a: Seq<Seq<T>>, k: T) -> bool {
    forall|r: int, c: int| 0 <= r < a.len() && 0 <= c < a[r].len() ==> #[trigger] a[r][c].mul_req(k)
}

impl<const R: usize, const C: usize, T: Copy + Mul<T, Output = T>> vstd::std_specs::ops::MulSpecImpl<&T> for &MatrixInner<R, C, T> {
    open spec fn obeys_mul_spec() -> bool {
        T::obeys_mul_spec()
    }

    open spec fn mul_req(self, rhs: &T) -> bool {
        mat_scale_req(self@, *rhs)
    }

    open spec fn mul_spec(self, rhs: &T) -> MatrixInner<R, C, T> {
        MatrixInner::of(mat_scale(self@, *rhs))
    }
}

impl<const R: usize, const C: usize, T: Copy + Mul<T, Output = T>> Mul<&T> for &MatrixInner<R, C, T> {
    type Output = MatrixInner<R, C, T>;

    /// The matrix with every cell multiplied by `rhs`. The other three forms of
    /// `*` between a matrix and a scalar come here.
    fn mul(self, rhs: &T) -> (out: MatrixInner<R, C, T>)
        ensures
            T::obeys_mul_spec() ==> out@ == mat_scale(self@, *rhs),
    {
        let mut out = *self;
        let mut r: usize = 0;
        while r < R
            invariant
                r <= R,
                mat_scale_req(self@, *rhs),
                T::obeys_mul_spec() ==> forall|i: int, j: int|
                    0 <= i < r && 0 <= j < C ==> out@[i][j] == (#[trigger] self@[i][j]).mul_spec(
                        *rhs,
                    ),
            decreases R - r,
        {
            let mut c: usize = 0;
            while c < C
                invariant
                    r < R,
                    c <= C,
                    mat_scale_req(self@, *rhs),
                    T::obeys_mul_spec() ==> forall|i: int, j: int|
                        0 <= i < r && 0 <= j < C ==> out@[i][j] == (
                        #[trigger] self@[i][j]).mul_spec(*rhs),
                    T::obeys_mul_spec() ==> forall|j: int|
                        0 <= j < c ==> out@[r as int][j] == (
                        #[trigger] self@[r as int][j]).mul_spec(*rhs),
                decreases C - c,
            {
                assert(self@[r as int][c as int].mul_req(*rhs));
                out.elements[r][c] = self.elements[r][c] * *rhs;
                c += 1;
            }
            r += 1;
        }
        proof {
            if T::obeys_mul_spec() {
                assert(out@ =~~= mat_scale(self@, *rhs));
                out.lemma_of_view();
            }
        }
        out
    }
}

impl<const R: usize, const C: usize, T: Copy + Mul<T, Output = T>> vstd::std_specs::ops::MulSpecImpl<T> for MatrixInner<R, C, T> {
    open spec fn obeys_mul_spec() -> bool {
        T::obeys_mul_spec()
    }

    open spec fn mul_req(self, rhs: T) -> bool {
        mat_scale_req(self@, rhs)
    }

    open spec fn mul_spec(self, rhs: T) -> MatrixInner<R, C, T> {
        MatrixInner::of(mat_scale(self@, rhs))
    }
}

impl<const R: usize, const C: usize, T: Copy + Mul<T, Output = T>> Mul<T> for MatrixInner<R, C, T> {
    type Output = MatrixInner<R, C, T>;

    fn mul(self, rhs: T) -> (out: MatrixInner<R, C, T>)
        ensures
            T::obeys_mul_spec() ==> out@ == mat_scale(self@, rhs),
    {
        (&self).mul(&rhs)
    }
}

impl<const R: usize, const C: usize, T: Copy + Mul<T, Output = T>> vstd::std_specs::ops::MulSpecImpl<&T> for MatrixInner<R, C, T> {
    open spec fn obeys_mul_spec() -> bool {
        T::obeys_mul_spec()
    }

    open spec fn mul_req(self, rhs: &T) -> bool {
        mat_scale_req(self@, *rhs)
    }

    open spec fn mul_spec(self, rhs: &T) -> MatrixInner<R, C, T> {
        MatrixInner::of(mat_scale(self@, *rhs))
    }
}

impl<const R: usize, const C: usize, T: Copy + Mul<T, Output = T>> Mul<&T> for MatrixInner<R, C, T> {
    type Output = MatrixInner<R, C, T>;

    fn mul(self, rhs: &T) -> (out: MatrixInner<R, C, T>)
        ensures
            T::obeys_mul_spec() ==> out@ == mat_scale(self@, *rhs),
    {
        (&self).mul(rhs)
    }
}

impl<const R: usize, const C: usize, T: Copy + Mul<T, Output = T>> vstd::std_specs::ops::MulSpecImpl<T> for &MatrixInner<R, C, T> {
    open spec fn obeys_mul_spec() -> bool {
        T::obeys_mul_spec()
    }

    open spec fn mul_req(self, rhs: T) -> bool {
        mat_scale_req(self@, rhs)
    }

    open spec fn mul_spec(self, rhs: T) -> MatrixInner<R, C, T> {
        MatrixInner::of(mat_scale(self@, rhs))
    }
}

impl<const R: usize, const C: usize, T: Copy + Mul<T, Output = T>> Mul<T> for &MatrixInner<R, C, T> {
    type Output = MatrixInner<R, C, T>;

    fn mul(self, rhs: T) -> (out: MatrixInner<R, C, T>)
        ensures
            T::obeys_mul_spec() ==> out@ == mat_scale(self@, rhs),
    {
        self.mul(&rhs)
    }
}

impl<const R: usize, const C: usize, T: Copy + Mul<T, Output = T>> MulAssign<&T> for MatrixInner<R, C, T> {
    /// Multiplies every cell by `rhs`, in place.
    fn mul_assign(&mut self, rhs: &T)
        requires
            mat_scale_req(old(self)@, *rhs),
        ensures
            T::obeys_mul_spec() ==> final(self)@ == mat_scale(old(self)@, *rhs),
    {
        let ghost before = self@;
        let mut r: usize = 0;
        while r < R
            invariant
                r <= R,
                has_shape(before, R as nat, C as nat),
                mat_scale_req(before, *rhs),
                forall|i: int, j: int|
                    r <= i < R && 0 <= j < C ==> self@[i][j] == #[trigger] before[i][j],
                T::obeys_mul_spec() ==> forall|i: int, j: int|
                    0 <= i < r && 0 <= j < C ==> self@[i][j] == (#[trigger] before[i][j]).mul_spec(
                        *rhs,
                    ),
            decreases R - r,
        {
            let mut c: usize = 0;
            while c < C
                invariant
                    r < R,
                    c <= C,
                    has_shape(before, R as nat, C as nat),
                    mat_scale_req(before, *rhs),
                    forall|i: int, j: int|
                        r < i < R && 0 <= j < C ==> self@[i][j] == #[trigger] before[i][j],
                    forall|j: int| c <= j < C ==> self@[r as int][j] == #[trigger] before[r as int][j],
                    T::obeys_mul_spec() ==> forall|i: int, j: int|
                        0 <= i < r && 0 <= j < C ==> self@[i][j] == (
                        #[trigger] before[i][j]).mul_spec(*rhs),
                    T::obeys_mul_spec() ==> forall|j: int|
                        0 <= j < c ==> self@[r as int][j] == (
                        #[trigger] before[r as int][j]).mul_spec(*rhs),
                decreases C - c,
            {
                assert(before[r as int][c as int].mul_req(*rhs));
                self.elements[r][c] = self.elements[r][c] * *rhs;
                c += 1;
            }
            r += 1;
        }
        proof {
            if T::obeys_mul_spec() {
                assert(self@ =~~= mat_scale(before, *rhs));
            }
        }
    }
}

impl<const R: usize, const C: usize, T: Copy + Mul<T, Output = T>> MulAssign<T> for MatrixInner<R, C, T> {
    fn mul_assign(&mut self, rhs: T)
        requires
            mat_scale_req(old(self)@, rhs),
        ensures
            T::obeys_mul_spec() ==> final(self)@ == mat_scale(old(self)@, rhs),
    {
        self.mul_assign(&rhs)
    }
}

} // verus!
