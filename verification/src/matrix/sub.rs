//! Cell by cell subtraction of two matrices of one shape.

use crate::matrix::inner::has_shape;
use crate::matrix::inner::MatrixInner;
use std::ops::Sub;
use std::ops::SubAssign;
use vstd::prelude::*;
use vstd::std_specs::ops::SubSpec;

verus! {

/// The difference of `a` and `b`: each cell is the scalar's difference of the two cells in its place.
pub open spec fn mat_sub<T: Sub<T, Output = T>>(a: Seq<Seq<T>>, b: Seq<Seq<T>>) -> Seq<Seq<T>> {
    Seq::new(a.len(), |r: int| Seq::new(a[r].len(), |c: int| a[r][c].sub_spec(b[r][c])))
}

/// The scalar accepts every subtraction that the difference of `a` and `b` takes.
pub open spec fn mat_sub_req<T: Sub<T, Output = T>>(a: Seq<Seq<T>>, b: Seq<Seq<T>>) -> bool {
    forall|r: int, c: int|
        0 <= r < a.len() && 0 <= c < a[r].len() ==> #[trigger] a[r][c].sub_req(b[r][c])
}

impl<const R: usize, const C: usize, T: Copy + Sub<T, Output = T>> vstd::std_specs::ops::SubSpecImpl<&MatrixInner<R, C, T>> for &MatrixInner<R, C, T> {
    open spec fn obeys_sub_spec() -> bool {
        T::obeys_sub_spec()
    }

    open spec fn sub_req(self, rhs: &MatrixInner<R, C, T>) -> bool {
        mat_sub_req(self@, rhs@)
    }

    open spec fn sub_spec(self, rhs: &MatrixInner<R, C, T>) -> MatrixInner<R, C, T> {
        MatrixInner::of(mat_sub(self@, rhs@))
    }
}

impl<const R: usize, const C: usize, T: Copy + Sub<T, Output = T>> Sub<&MatrixInner<R, C, T>> for &MatrixInner<R, C, T> {
    type Output = MatrixInner<R, C, T>;

    /// The difference of two matrices. The other three forms of `-` come here.
    fn sub(self, rhs: &MatrixInner<R, C, T>) -> (out: MatrixInner<R, C, T>)
        ensures
            T::obeys_sub_spec() ==> out@ == mat_sub(self@, rhs@),
    {
        let mut out = *self;
        let mut r: usize = 0;
        while r < R
            invariant
                r <= R,
                mat_sub_req(self@, rhs@),
                T::obeys_sub_spec() ==> forall|i: int, j: int|
                    0 <= i < r && 0 <= j < C ==> out@[i][j] == (#[trigger] self@[i][j]).sub_spec(
                        rhs@[i][j],
                    ),
            decreases R - r,
        {
            let mut c: usize = 0;
            while c < C
                invariant
                    r < R,
                    c <= C,
                    mat_sub_req(self@, rhs@),
                    T::obeys_sub_spec() ==> forall|i: int, j: int|
                        0 <= i < r && 0 <= j < C ==> out@[i][j] == (
                        #[trigger] self@[i][j]).sub_spec(rhs@[i][j]),
                    T::obeys_sub_spec() ==> forall|j: int|
                        0 <= j < c ==> out@[r as int][j] == (
                        #[trigger] self@[r as int][j]).sub_spec(rhs@[r as int][j]),
                decreases C - c,
            {
                assert(self@[r as int][c as int].sub_req(rhs@[r as int][c as int]));
                out.elements[r][c] = self.elements[r][c] - rhs.elements[r][c];
                c += 1;
            }
            r += 1;
        }
        proof {
            if T::obeys_sub_spec() {
                assert(out@ =~~= mat_sub(self@, rhs@));
                out.lemma_of_view();
            }
        }
        out
    }
}

impl<const R: usize, const C: usize, T: Copy + Sub<T, Output = T>> vstd::std_specs::ops::SubSpecImpl<MatrixInner<R, C, T>> for MatrixInner<R, C, T> {
    open spec fn obeys_sub_spec() -> bool {
        T::obeys_sub_spec()
    }

    open spec fn sub_req(self, rhs: MatrixInner<R, C, T>) -> bool {
        mat_sub_req(self@, rhs@)
    }

    open spec fn sub_spec(self, rhs: MatrixInner<R, C, T>) -> MatrixInner<R, C, T> {
        MatrixInner::of(mat_sub(self@, rhs@))
    }
}

impl<const R: usize, const C: usize, T: Copy + Sub<T, Output = T>> Sub<MatrixInner<R, C, T>> for MatrixInner<R, C, T> {
    type Output = MatrixInner<R, C, T>;

    fn sub(self, rhs: MatrixInner<R, C, T>) -> (out: MatrixInner<R, C, T>)
        ensures
            T::obeys_sub_spec() ==> out@ == mat_sub(self@, rhs@),
    {
        (&self).sub(&rhs)
    }
}

impl<const R: usize, const C: usize, T: Copy + Sub<T, Output = T>> vstd::std_specs::ops::SubSpecImpl<&MatrixInner<R, C, T>> for MatrixInner<R, C, T> {
    open spec fn obeys_sub_spec() -> bool {
        T::obeys_sub_spec()
    }

    open spec fn sub_req(self, rhs: &MatrixInner<R, C, T>) -> bool {
        mat_sub_req(self@, rhs@)
    }

    open spec fn sub_spec(self, rhs: &MatrixInner<R, C, T>) -> MatrixInner<R, C, T> {
        MatrixInner::of(mat_sub(self@, rhs@))
    }
}

impl<const R: usize, const C: usize, T: Copy + Sub<T, Output = T>> Sub<&MatrixInner<R, C, T>> for MatrixInner<R, C, T> {
    type Output = MatrixInner<R, C, T>;

    fn sub(self, rhs: &MatrixInner<R, C, T>) -> (out: MatrixInner<R, C, T>)
        ensures
            T::obeys_sub_spec() ==> out@ == mat_sub(self@, rhs@),
    {
        (&self).sub(rhs)
    }
}

impl<const R: usize, const C: usize, T: Copy + Sub<T, Output = T>> vstd::std_specs::ops::SubSpecImpl<MatrixInner<R, C, T>> for &MatrixInner<R, C, T> {
    open spec fn obeys_sub_spec() -> bool {
        T::obeys_sub_spec()
    }

    open spec fn sub_req(self, rhs: MatrixInner<R, C, T>) -> bool {
        mat_sub_req(self@, rhs@)
    }

    open spec fn sub_spec(self, rhs: MatrixInner<R, C, T>) -> MatrixInner<R, C, T> {
        MatrixInner::of(mat_sub(self@, rhs@))
    }
}

impl<const R: usize, const C: usize, T: Copy + Sub<T, Output = T>> Sub<MatrixInner<R, C, T>> for &MatrixInner<R, C, T> {
    type Output = MatrixInner<R, C, T>;

    fn sub(self, rhs: MatrixInner<R, C, T>) -> (out: MatrixInner<R, C, T>)
        ensures
            T::obeys_sub_spec() ==> out@ == mat_sub(self@, rhs@),
    {
        self.sub(&rhs)
    }
}

impl<const R: usize, const C: usize, T: Copy + Sub<T, Output = T>> SubAssign<&MatrixInner<R, C, T>> for MatrixInner<R, C, T> {
    /// Subtracts `rhs` from the matrix, cell by cell, in place.
    fn sub_assign(&mut self, rhs: &MatrixInner<R, C, T>)
        requires
            mat_sub_req(old(self)@, rhs@),
        ensures
            T::obeys_sub_spec() ==> final(self)@ == mat_sub(old(self)@, rhs@),
    {
        let ghost before = self@;
        let mut r: usize = 0;
        while r < R
            invariant
                r <= R,
                has_shape(before, R as nat, C as nat),
                mat_sub_req(before, rhs@),
                forall|i: int, j: int|
                    r <= i < R && 0 <= j < C ==> self@[i][j] == #[trigger] before[i][j],
                T::obeys_sub_spec() ==> forall|i: int, j: int|
                    0 <= i < r && 0 <= j < C ==> self@[i][j] == (#[trigger] before[i][j]).sub_spec(
                        rhs@[i][j],
                    ),
            decreases R - r,
        {
            let mut c: usize = 0;
            while c < C
                invariant
                    r < R,
                    c <= C,
                    has_shape(before, R as nat, C as nat),
                    mat_sub_req(before, rhs@),
                    forall|i: int, j: int|
                        r < i < R && 0 <= j < C ==> self@[i][j] == #[trigger] before[i][j],
                    forall|j: int| c <= j < C ==> self@[r as int][j] == #[trigger] before[r as int][j],
                    T::obeys_sub_spec() ==> forall|i: int, j: int|
                        0 <= i < r && 0 <= j < C ==> self@[i][j] == (
                        #[trigger] before[i][j]).sub_spec(rhs@[i][j]),
                    T::obeys_sub_spec() ==> forall|j: int|
                        0 <= j < c ==> self@[r as int][j] == (
                        #[trigger] before[r as int][j]).sub_spec(rhs@[r as int][j]),
                decreases C - c,
            {
                assert(before[r as int][c as int].sub_req(rhs@[r as int][c as int]));
                self.elements[r][c] = self.elements[r][c] - rhs.elements[r][c];
                c += 1;
            }
            r += 1;
        }
        proof {
            if T::obeys_sub_spec() {
                assert(self@ =~~= mat_sub(before, rhs@));
            }
        }
    }
}

impl<const R: usize, const C: usize, T: Copy + Sub<T, Output = T>> SubAssign<MatrixInner<R, C, T>> for MatrixInner<R, C, T> {
    fn sub_assign(&mut self, rhs: MatrixInner<R, C, T>)
        requires
            mat_sub_req(old(self)@, rhs@),
        ensures
            T::obeys_sub_spec() ==> final(self)@ == mat_sub(old(self)@, rhs@),
    {
        self.sub_assign(&rhs)
    }
}

} // verus!
