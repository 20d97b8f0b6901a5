//! The matrix itself: its storage, its mathematical view, and how one is
//! made, compared and converted.

use crate::matrix::scalar::One;
use crate::matrix::scalar::Zero;
use vstd::prelude::*;
use vstd::std_specs::cmp::PartialEqSpec;

verus! {

/// A matrix of `R` rows and `C` columns, stored row by row.
#[derive(Debug)]
pub struct MatrixInner<const R: usize, const C: usize, T> {
    pub elements: [[T; C]; R],
}

/// The name under which matrices are used.
pub type Matrix<const R: usize, const C: usize, T> = MatrixInner<R, C, T>;

/// A square matrix of side two.
pub type Matrix2<T> = Matrix<2, 2, T>;

pub type Matrix2i = Matrix2<i32>;

/// A square matrix of side three.
pub type Matrix3<T> = Matrix<3, 3, T>;

pub type Matrix3i = Matrix3<i32>;

/// A square matrix of side four.
pub type Matrix4<T> = Matrix<4, 4, T>;

pub type Matrix4i = Matrix4<i32>;

/// A vector is a matrix of one row.
pub type Vector<const C: usize, T> = Matrix<1, C, T>;

/// A vector of two components.
pub type Vector2<T> = Vector<2, T>;

pub type Vector2i = Vector2<i32>;

/// A vector of three components.
pub type Vector3<T> = Vector<3, T>;

pub type Vector3i = Vector3<i32>;

/// A vector of four components.
pub type Vector4<T> = Vector<4, T>;

pub type Vector4i = Vector4<i32>;

/// `s` has `rows` rows of `cols` cells each.
pub open spec fn has_shape<T>(s: Seq<Seq<T>>, rows: nat, cols: nat) -> bool {
    &&& s.len() == rows
    &&& forall|r: int| 0 <= r < rows ==> (#[trigger] s[r]).len() == cols
}

/// The rows of a nested array, each as a sequence.
pub open spec fn rows_of<const R: usize, const C: usize, T>(a: [[T; C]; R]) -> Seq<Seq<T>> {
    Seq::new(R as nat, |r: int| a[r]@)
}

/// The matrix of `rows` rows and `cols` columns whose every cell is `v`.
pub open spec fn mat_fill<T>(rows: nat, cols: nat, v: T) -> Seq<Seq<T>> {
    Seq::new(rows, |r: int| Seq::new(cols, |c: int| v))
}

/// The square matrix of side `n` with ones on the diagonal and zeros elsewhere.
pub open spec fn mat_identity<T: Zero + One>(n: nat) -> Seq<Seq<T>> {
    Seq::new(
        n,
        |r: int|
            Seq::new(
                n,
                |c: int|
                    if r == c {
                        T::one_spec()
                    } else {
                        T::zero_spec()
                    },
            ),
    )
}

/// Every cell of `a` equals, by the scalar's own `==`, the cell of `b` in the same place.
pub open spec fn mat_eq<T: PartialEq>(a: Seq<Seq<T>>, b: Seq<Seq<T>>) -> bool {
    forall|r: int, c: int|
        0 <= r < a.len() && 0 <= c < a[r].len() ==> #[trigger] a[r][c].eq_spec(&b[r][c])
}

impl<const R: usize, const C: usize, T> View for MatrixInner<R, C, T> {
    type V = Seq<Seq<T>>;

    /// The rows, each a sequence of its cells.
    open spec fn view(&self) -> Seq<Seq<T>> {
        rows_of(self.elements)
    }
}

impl<const R: usize, const C: usize, T> MatrixInner<R, C, T> {
    /// The matrix whose rows are `s`.
    pub open spec fn of(s: Seq<Seq<T>>) -> Self {
        choose|m: Self| m@ == s
    }

    /// A matrix is determined by its view.
    pub proof fn lemma_of_view(self)
        ensures
            Self::of(self@) == self,
    {
        let m = Self::of(self@);
        assert(m@ == self@);
        assert forall|r: int| 0 <= r < R implies m.elements[r] == self.elements[r] by {
            assert(m@[r] == self@[r]);
            assert(m.elements[r] =~= self.elements[r]);
        }
        assert(m.elements =~= self.elements);
    }

}

impl<const R: usize, const C: usize, T: Clone> Clone for MatrixInner<R, C, T> {
    /// The matrix whose every cell is a clone of the cell in its place.
    fn clone(&self) -> (m: Self)
        ensures
            forall|r: int, c: int|
                #![trigger self@[r][c]]
                #![trigger m@[r][c]]
                0 <= r < R && 0 <= c < C ==> cloned::<T>(self@[r][c], m@[r][c]),
    {
        let m = Self { elements: self.elements.clone() };
        proof {
            assert forall|r: int, c: int| 0 <= r < R && 0 <= c < C implies cloned::<T>(
                #[trigger] self@[r][c],
                m@[r][c],
            ) by {
                assert(cloned::<[T; C]>(self.elements@[r], m.elements@[r]));
            }
        }
        m
    }
}

impl<const R: usize, const C: usize, T: Copy> Copy for MatrixInner<R, C, T> {

}

impl<const R: usize, const C: usize, T> From<[[T; C]; R]> for MatrixInner<R, C, T> {
    /// The matrix whose rows are the rows of `value`.
    fn from(value: [[T; C]; R]) -> (m: Self)
        ensures
            m@ == rows_of(value),
    {
        Self { elements: value }
    }
}

impl<const R: usize, const C: usize, T> vstd::std_specs::convert::FromSpecImpl<[[T; C]; R]> for MatrixInner<R, C, T> {
    open spec fn obeys_from_spec() -> bool {
        true
    }

    open spec fn from_spec(value: [[T; C]; R]) -> Self {
        Self { elements: value }
    }
}

impl<const C: usize, T> From<[T; C]> for MatrixInner<1, C, T> {
    /// The vector whose components are `value`.
    fn from(value: [T; C]) -> (m: Self)
        ensures
            m@ == seq![value@],
    {
        let m = Self { elements: [value] };
        proof {
            assert(m@ =~= seq![value@]);
        }
        m
    }
}

impl<const C: usize, T> vstd::std_specs::convert::FromSpecImpl<[T; C]> for MatrixInner<1, C, T> {
    open spec fn obeys_from_spec() -> bool {
        true
    }

    open spec fn from_spec(value: [T; C]) -> Self {
        Self { elements: [value] }
    }
}

impl<const R: usize, const C: usize, T: Default + Copy> Default for MatrixInner<R, C, T> {
    /// The matrix whose every cell is a default value of the scalar.
    fn default() -> (m: Self)
        ensures
            forall|r: int, c: int|
                0 <= r < R && 0 <= c < C ==> call_ensures(T::default, (), #[trigger] m@[r][c]),
    {
        let v = T::default();
        Self { elements: [[v; C]; R] }
    }
}

impl<const R: usize, const C: usize, T: PartialEq> PartialEq for MatrixInner<R, C, T> {
    /// Whether every cell equals, by the scalar's own `==`, the cell of
    /// `other` in the same place.
    fn eq(&self, other: &Self) -> (e: bool)
        ensures
            T::obeys_eq_spec() ==> e == mat_eq(self@, other@),
    {
        let mut r: usize = 0;
        while r < R
            invariant
                r <= R,
                T::obeys_eq_spec() ==> forall|i: int, j: int|
                    0 <= i < r && 0 <= j < C ==> #[trigger] self@[i][j].eq_spec(&other@[i][j]),
            decreases R - r,
        {
            let mut c: usize = 0;
            while c < C
                invariant
                    r < R,
                    c <= C,
                    T::obeys_eq_spec() ==> forall|j: int|
                        0 <= j < c ==> #[trigger] self@[r as int][j].eq_spec(&other@[r as int][j]),
                decreases C - c,
            {
                if !(self.elements[r][c] == other.elements[r][c]) {
                    proof {
                        assert(self@[r as int][c as int] == self.elements[r as int][c as int]);
                        if T::obeys_eq_spec() {
                            assert(!self@[r as int][c as int].eq_spec(&other@[r as int][c as int]));
                        }
                    }
                    return false;
                }
                c += 1;
            }
            r += 1;
        }
        true
    }
}

impl<const R: usize, const C: usize, T: PartialEq> vstd::std_specs::cmp::PartialEqSpecImpl for MatrixInner<R, C, T> {
    open spec fn obeys_eq_spec() -> bool {
        T::obeys_eq_spec()
    }

    open spec fn eq_spec(&self, other: &Self) -> bool {
        mat_eq(self@, other@)
    }
}

impl<const R: usize, const C: usize, T: Eq> Eq for MatrixInner<R, C, T> {

}

impl<const R: usize, T: Zero + One + Copy> MatrixInner<R, R, T> {
    /// The identity matrix: the scalar's one on the diagonal, its zero in
    /// every other cell.
    pub fn identity() -> (m: Self)
        ensures
            m@ == mat_identity::<T>(R as nat),
    {
        let mut m = Self { elements: [[T::zero(); R]; R] };
        let mut r: usize = 0;
        while r < R
            invariant
                r <= R,
                forall|i: int, j: int|
                    0 <= i < R && 0 <= j < R ==> #[trigger] m@[i][j] == if i == j && i < r {
                        T::one_spec()
                    } else {
                        T::zero_spec()
                    },
            decreases R - r,
        {
            let ghost before = m@;
            m.elements[r][r] = T::one();
            proof {
                assert forall|i: int, j: int| 0 <= i < R && 0 <= j < R implies #[trigger] m@[i][j]
                    == if i == j && i <= r {
                    T::one_spec()
                } else {
                    T::zero_spec()
                } by {
                    assert(m@[i][j] == if i == r && j == r {
                        T::one_spec()
                    } else {
                        before[i][j]
                    });
                }
            }
            r += 1;
        }
        proof {
            assert(m@ =~~= mat_identity::<T>(R as nat));
        }
        m
    }
}

} // verus!
