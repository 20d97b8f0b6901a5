//! Cell by cell addition of two matrices of one shape.

use crate::matrix::inner::has_shape;
use crate::matrix::inner::MatrixInner;
use std::ops::Add;
use std::ops::AddAssign;
use vstd::prelude::*;
use vstd::std_specs::ops::AddSpec;

verus! {

/// The sum of `a` and `b`: each cell is the scalar's sum of the two cells in its place.
pub open spec fn mat_add<T: Add<T, Output = T>>(a: Seq<Seq<T>>, b: Seq<Seq<T>>) -> Seq<Seq<T>> {
    Seq::new(a.len(), |r: int| Seq::new(a[r].len(), |c: int| a[r][c].add_spec(b[r][c])))
}

/// The scalar accepts every addition that the sum of `a` and `b` takes.
pub open spec fn mat_add_req<T: Add<T, Output = T>>(a: Seq<Seq<T>>, b: Seq<Seq<T>>) -> bool {
    forall|r: int, c: int|
        0 <= r < a.len() && 0 <= c < a[r].len() ==> #[trigger] a[r][c].add_req(b[r][c])
}

impl<const R: usize, const C: usize, T: Copy + Add<T, Output = T>> vstd::std_specs::ops::AddSpecImpl<&MatrixInner<R, C, T>> for &MatrixInner<R, C, T> {
    open spec fn obeys_add_spec() -> bool {
        T::obeys_add_spec()
    }

    open spec fn add_req(self, rhs: &MatrixInner<R, C, T>) -> bool {
        mat_add_req(self@, rhs@)
    }

    open spec fn add_spec(self, rhs: &MatrixInner<R, C, T>) -> MatrixInner<R, C, T> {
        MatrixInner::of(mat_add(self@, rhs@))
    }
}

impl<const R: usize, const C: usize, T: Copy + Add<T, Output = T>> Add<&MatrixInner<R, C, T>> for &MatrixInner<R, C, T> {
    type Output = MatrixInner<R, C, T>;

    /// The sum of two matrices. The other three forms of `+` come here.
    fn add(self, rhs: &MatrixInner<R, C, T>) -> (out: MatrixInner<R, C, T>)
        ensures
            T::obeys_add_spec() ==> out@ == mat_add(self@, rhs@),
    {
        let mut out = *self;
        let mut r: usize = 0;
        while r < R
            invariant
                r <= R,
                mat_add_req(self@, rhs@),
                T::obeys_add_spec() ==> forall|i: int, j: int|
                    0 <= i < r && 0 <= j < C ==> out@[i][j] == (#[trigger] self@[i][j]).add_spec(
                        rhs@[i][j],
                    ),
            decreases R - r,
        {
            let mut c: usize = 0;
            while c < C
                invariant
                    r < R,
                    c <= C,
                    mat_add_req(self@, rhs@),
                    T::obeys_add_spec() ==> forall|i: int, j: int|
                        0 <= i < r && 0 <= j < C ==> out@[i][j] == (
                        #[trigger] self@[i][j]).add_spec(rhs@[i][j]),
                    T::obeys_add_spec() ==> forall|j: int|
                        0 <= j < c ==> out@[r as int][j] == (
                        #[trigger] self@[r as int][j]).add_spec(rhs@[r as int][j]),
                decreases C - c,
            {
                assert(self@[r as int][c as int].add_req(rhs@[r as int][c as int]));
                out.elements[r][c] = self.elements[r][c] + rhs.elements[r][c];
                c += 1;
            }
            r += 1;
        }
        proof {
            if T::obeys_add_spec() {
                assert(out@ =~~= mat_add(self@, rhs@));
                out.lemma_of_view();
            }
        }
        out
    }
}

impl<const R: usize, const C: usize, T: Copy + Add<T, Output = T>> vstd::std_specs::ops::AddSpecImpl<MatrixInner<R, C, T>> for MatrixInner<R, C, T> {
    open spec fn obeys_add_spec() -> bool {
        T::obeys_add_spec()
    }

    open spec fn add_req(self, rhs: MatrixInner<R, C, T>) -> bool {
        mat_add_req(self@, rhs@)
    }

    open spec fn add_spec(self, rhs: MatrixInner<R, C, T>) -> MatrixInner<R, C, T> {
        MatrixInner::of(mat_add(self@, rhs@))
    }
}

impl<const R: usize, const C: usize, T: Copy + Add<T, Output = T>> Add<MatrixInner<R, C, T>> for MatrixInner<R, C, T> {
    type Output = MatrixInner<R, C, T>;

    fn add(self, rhs: MatrixInner<R, C, T>) -> (out: MatrixInner<R, C, T>)
        ensures
            T::obeys_add_spec() ==> out@ == mat_add(self@, rhs@),
    {
        (&self).add(&rhs)
    }
}

impl<const R: usize, const C: usize, T: Copy + Add<T, Output = T>> vstd::std_specs::ops::AddSpecImpl<&MatrixInner<R, C, T>> for MatrixInner<R, C, T> {
    open spec fn obeys_add_spec() -> bool {
        T::obeys_add_spec()
    }

    open spec fn add_req(self, rhs: &MatrixInner<R, C, T>) -> bool {
        mat_add_req(self@, rhs@)
    }

    open spec fn add_spec(self, rhs: &MatrixInner<R, C, T>) -> MatrixInner<R, C, T> {
        MatrixInner::of(mat_add(self@, rhs@))
    }
}

impl<const R: usize, const C: usize, T: Copy + Add<T, Output = T>> Add<&MatrixInner<R, C, T>> for MatrixInner<R, C, T> {
    type Output = MatrixInner<R, C, T>;

    fn add(self, rhs: &MatrixInner<R, C, T>) -> (out: MatrixInner<R, C, T>)
        ensures
            T::obeys_add_spec() ==> out@ == mat_add(self@, rhs@),
    {
        (&self).add(rhs)
    }
}

impl<const R: usize, const C: usize, T: Copy + Add<T, Output = T>> vstd::std_specs::ops::AddSpecImpl<MatrixInner<R, C, T>> for &MatrixInner<R, C, T> {
    open spec fn obeys_add_spec() -> bool {
        T::obeys_add_spec()
    }

    open spec fn add_req(self, rhs: MatrixInner<R, C, T>) -> bool {
        mat_add_req(self@, rhs@)
    }

    open spec fn add_spec(self, rhs: MatrixInner<R, C, T>) -> MatrixInner<R, C, T> {
        MatrixInner::of(mat_add(self@, rhs@))
    }
}

impl<const R: usize, const C: usize, T: Copy + Add<T, Output = T>> Add<MatrixInner<R, C, T>> for &MatrixInner<R, C, T> {
    type Output = MatrixInner<R, C, T>;

    fn add(self, rhs: MatrixInner<R, C, T>) -> (out: MatrixInner<R, C, T>)
        ensures
            T::obeys_add_spec() ==> out@ == mat_add(self@, rhs@),
    {
        self.add(&rhs)
    }
}

impl<const R: usize, const C: usize, T: Copy + Add<T, Output = T>> AddAssign<&MatrixInner<R, C, T>> for MatrixInner<R, C, T> {
    /// Adds `rhs` to the matrix, cell by cell, in place.
    fn add_assign(&mut self, rhs: &MatrixInner<R, C, T>)
        requires
            mat_add_req(old(self)@, rhs@),
        ensures
            T::obeys_add_spec() ==> final(self)@ == mat_add(old(self)@, rhs@),
    {
        let ghost before = self@;
        let mut r: usize = 0;
        while r < R
            invariant
                r <= R,
                has_shape(before, R as nat, C as nat),
                mat_add_req(before, rhs@),
                forall|i: int, j: int|
                    r <= i < R && 0 <= j < C ==> self@[i][j] == #[trigger] before[i][j],
                T::obeys_add_spec() ==> forall|i: int, j: int|
                    0 <= i < r && 0 <= j < C ==> self@[i][j] == (#[trigger] before[i][j]).add_spec(
                        rhs@[i][j],
                    ),
            decreases R - r,
        {
            let mut c: usize = 0;
            while c < C
                invariant
                    r < R,
                    c <= C,
                    has_shape(before, R as nat, C as nat),
                    mat_add_req(before, rhs@),
                    forall|i: int, j: int|
                        r < i < R && 0 <= j < C ==> self@[i][j] == #[trigger] before[i][j],
                    forall|j: int| c <= j < C ==> self@[r as int][j] == #[trigger] before[r as int][j],
                    T::obeys_add_spec() ==> forall|i: int, j: int|
                        0 <= i < r && 0 <= j < C ==> self@[i][j] == (
                        #[trigger] before[i][j]).add_spec(rhs@[i][j]),
                    T::obeys_add_spec() ==> forall|j: int|
                        0 <= j < c ==> self@[r as int][j] == (
                        #[trigger] before[r as int][j]).add_spec(rhs@[r as int][j]),
                decreases C - c,
            {
                assert(before[r as int][c as int].add_req(rhs@[r as int][c as int]));
                self.elements[r][c] = self.elements[r][c] + rhs.elements[r][c];
                c += 1;
            }
            r += 1;
        }
        proof {
            if T::obeys_add_spec() {
                assert(self@ =~~= mat_add(before, rhs@));
            }
        }
    }
}

impl<const R: usize, const C: usize, T: Copy + Add<T, Output = T>> AddAssign<MatrixInner<R, C, T>> for MatrixInner<R, C, T> {
    fn add_assign(&mut self, rhs: MatrixInner<R, C, T>)
        requires
            mat_add_req(old(self)@, rhs@),
        ensures
            T::obeys_add_spec() ==> final(self)@ == mat_add(old(self)@, rhs@),
    {
        self.add_assign(&rhs)
    }
}

} // verus!
