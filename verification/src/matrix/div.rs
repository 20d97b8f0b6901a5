//! The quotient of a matrix and a scalar.

use crate::matrix::inner::has_shape;
use crate::matrix::inner::MatrixInner;
use std::ops::Div;
use std::ops::DivAssign;
use vstd::prelude::*;
use vstd::std_specs::ops::DivSpec;

verus! {

/// The matrix `a` with every cell divided by the scalar `k`.
pub open spec fn mat_div<T: Div<T, Output = T>>(a: Seq<Seq<T>>, k: T) -> Seq<Seq<T>> {
    Seq::new(a.len(), |r: int| Seq::new(a[r].len(), |c: int| a[r][c].div_spec(k)))
}

/// The scalar accepts every division that `mat_div` takes.
pub open spec fn mat_div_req<T: Div<T, Output = T>>(a: Seq<Seq<T>>, k: T) -> bool {
    forall|r: int, c: int| 0 <= r < a.len() && 0 <= c < a[r].len() ==> #[trigger] a[r][c].div_req(k)
}

impl<const R: usize, const C: usize, T: Copy + Div<T, Output = T>> vstd::std_specs::ops::DivSpecImpl<&T> for &MatrixInner<R, C, T> {
    open spec fn obeys_div_spec() -> bool {
        T::obeys_div_spec()
    }

    open spec fn div_req(self, rhs: &T) -> bool {
        mat_div_req(self@, *rhs)
    }

    open spec fn div_spec(self, rhs: &T) -> MatrixInner<R, C, T> {
        MatrixInner::of(mat_div(self@, *rhs))
    }
}

impl<const R: usize, const C: usize, T: Copy + Div<T, Output = T>> Div<&T> for &MatrixInner<R, C, T> {
    type Output = MatrixInner<R, C, T>;

    /// The matrix with every cell divided by `rhs`. The other three forms of
    /// `/` between a matrix and a scalar come here.
    fn div(self, rhs: &T) -> (out: MatrixInner<R, C, T>)
        ensures
            T::obeys_div_spec() ==> out@ == mat_div(self@, *rhs),
    {
        let mut out = *self;
        let mut r: usize = 0;
        while r < R
            invariant
                r <= R,
                mat_div_req(self@, *rhs),
                T::obeys_div_spec() ==> forall|i: int, j: int|
                    0 <= i < r && 0 <= j < C ==> out@[i][j] == (#[trigger] self@[i][j]).div_spec(
                        *rhs,
                    ),
            decreases R - r,
        {
            let mut c: usize = 0;
            while c < C
                invariant
                    r < R,
                    c <= C,
                    mat_div_req(self@, *rhs),
                    T::obeys_div_spec() ==> forall|i: int, j: int|
                        0 <= i < r && 0 <= j < C ==> out@[i][j] == (
                        #[trigger] self@[i][j]).div_spec(*rhs),
                    T::obeys_div_spec() ==> forall|j: int|
                        0 <= j < c ==> out@[r as int][j] == (
                        #[trigger] self@[r as int][j]).div_spec(*rhs),
                decreases C - c,
            {
                assert(self@[r as int][c as int].div_req(*rhs));
                out.elements[r][c] = self.elements[r][c] / *rhs;
                c += 1;
            }
            r += 1;
        }
        proof {
            if T::obeys_div_spec() {
                assert(out@ =~~= mat_div(self@, *rhs));
                out.lemma_of_view();
            }
        }
        out
    }
}

impl<const R: usize, const C: usize, T: Copy + Div<T, Output = T>> vstd::std_specs::ops::DivSpecImpl<T> for MatrixInner<R, C, T> {
    open spec fn obeys_div_spec() -> bool {
        T::obeys_div_spec()
    }

    open spec fn div_req(self, rhs: T) -> bool {
        mat_div_req(self@, rhs)
    }

    open spec fn div_spec(self, rhs: T) -> MatrixInner<R, C, T> {
        MatrixInner::of(mat_div(self@, rhs))
    }
}

impl<const R: usize, const C: usize, T: Copy + Div<T, Output = T>> Div<T> for MatrixInner<R, C, T> {
    type Output = MatrixInner<R, C, T>;

    fn div(self, rhs: T) -> (out: MatrixInner<R, C, T>)
        ensures
            T::obeys_div_spec() ==> out@ == mat_div(self@, rhs),
    {
        (&self).div(&rhs)
    }
}

impl<const R: usize, const C: usize, T: Copy + Div<T, Output = T>> vstd::std_specs::ops::DivSpecImpl<&T> for MatrixInner<R, C, T> {
    open spec fn obeys_div_spec() -> bool {
        T::obeys_div_spec()
    }

    open spec fn div_req(self, rhs: &T) -> bool {
        mat_div_req(self@, *rhs)
    }

    open spec fn div_spec(self, rhs: &T) -> MatrixInner<R, C, T> {
        MatrixInner::of(mat_div(self@, *rhs))
    }
}

impl<const R: usize, const C: usize, T: Copy + Div<T, Output = T>> Div<&T> for MatrixInner<R, C, T> {
    type Output = MatrixInner<R, C, T>;

    fn div(self, rhs: &T) -> (out: MatrixInner<R, C, T>)
        ensures
            T::obeys_div_spec() ==> out@ == mat_div(self@, *rhs),
    {
        (&self).div(rhs)
    }
}

impl<const R: usize, const C: usize, T: Copy + Div<T, Output = T>> vstd::std_specs::ops::DivSpecImpl<T> for &MatrixInner<R, C, T> {
    open spec fn obeys_div_spec() -> bool {
        T::obeys_div_spec()
    }

    open spec fn div_req(self, rhs: T) -> bool {
        mat_div_req(self@, rhs)
    }

    open spec fn div_spec(self, rhs: T) -> MatrixInner<R, C, T> {
        MatrixInner::of(mat_div(self@, rhs))
    }
}

impl<const R: usize, const C: usize, T: Copy + Div<T, Output = T>> Div<T> for &MatrixInner<R, C, T> {
    type Output = MatrixInner<R, C, T>;

    fn div(self, rhs: T) -> (out: MatrixInner<R, C, T>)
        ensures
            T::obeys_div_spec() ==> out@ == mat_div(self@, rhs),
    {
        self.div(&rhs)
    }
}

impl<const R: usize, const C: usize, T: Copy + Div<T, Output = T>> DivAssign<&T> for MatrixInner<R, C, T> {
    /// Divides every cell by `rhs`, in place.
    fn div_assign(&mut self, rhs: &T)
        requires
            mat_div_req(old(self)@, *rhs),
        ensures
            T::obeys_div_spec() ==> final(self)@ == mat_div(old(self)@, *rhs),
    {
        let ghost before = self@;
        let mut r: usize = 0;
        while r < R
            invariant
                r <= R,
                has_shape(before, R as nat, C as nat),
                mat_div_req(before, *rhs),
                forall|i: int, j: int|
                    r <= i < R && 0 <= j < C ==> self@[i][j] == #[trigger] before[i][j],
                T::obeys_div_spec() ==> forall|i: int, j: int|
                    0 <= i < r && 0 <= j < C ==> self@[i][j] == (#[trigger] before[i][j]).div_spec(
                        *rhs,
                    ),
            decreases R - r,
        {
            let mut c: usize = 0;
            while c < C
                invariant
                    r < R,
                    c <= C,
                    has_shape(before, R as nat, C as nat),
                    mat_div_req(before, *rhs),
                    forall|i: int, j: int|
                        r < i < R && 0 <= j < C ==> self@[i][j] == #[trigger] before[i][j],
                    forall|j: int| c <= j < C ==> self@[r as int][j] == #[trigger] before[r as int][j],
                    T::obeys_div_spec() ==> forall|i: int, j: int|
                        0 <= i < r && 0 <= j < C ==> self@[i][j] == (
                        #[trigger] before[i][j]).div_spec(*rhs),
                    T::obeys_div_spec() ==> forall|j: int|
                        0 <= j < c ==> self@[r as int][j] == (
                        #[trigger] before[r as int][j]).div_spec(*rhs),
                decreases C - c,
            {
                assert(before[r as int][c as int].div_req(*rhs));
                self.elements[r][c] = self.elements[r][c] / *rhs;
                c += 1;
            }
            r += 1;
        }
        proof {
            if T::obeys_div_spec() {
                assert(self@ =~~= mat_div(before, *rhs));
            }
        }
    }
}

impl<const R: usize, const C: usize, T: Copy + Div<T, Output = T>> DivAssign<T> for MatrixInner<R, C, T> {
    fn div_assign(&mut self, rhs: T)
        requires
            mat_div_req(old(self)@, rhs),
        ensures
            T::obeys_div_spec() ==> final(self)@ == mat_div(old(self)@, rhs),
    {
        self.div_assign(&rhs)
    }
}

} // verus!
