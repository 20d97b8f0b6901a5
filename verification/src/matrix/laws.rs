//! The algebra of matrices and vectors.
//!
//! What holds of every scalar is stated outright. What rests on the scalar's
//! own arithmetic is stated for every scalar that has the law in question,
//! and `lemma_i32_laws` shows that `i32` has them all.

use crate::matrix::add::mat_add;
use crate::matrix::add::mat_add_req;
use crate::matrix::cross::cross3;
use crate::matrix::cross::cross3_req;
use crate::matrix::inner::mat_fill;
use crate::matrix::inner::mat_identity;
use crate::matrix::inner::MatrixInner;
use crate::matrix::inner::Vector;
use crate::matrix::inner::Vector3;
use crate::matrix::mul::mat_mul;
use crate::matrix::mul::mat_mul_req;
use crate::matrix::mul::mul_cell;
use crate::matrix::mul::mul_cell_req;
use crate::matrix::scalar::One;
use crate::matrix::scalar::Zero;
use crate::matrix::transpose::mat_transpose;
use crate::matrix::vector::dot_from;
use crate::matrix::vector::is_vec_dot;
use std::ops::Add;
use std::ops::Div;
use std::ops::Mul;
use std::ops::Sub;
use vstd::prelude::*;
use vstd::std_specs::ops::AddSpec;
use vstd::std_specs::ops::DivSpec;
use vstd::std_specs::ops::MulSpec;
use vstd::std_specs::ops::SubSpec;

verus! {

/// The scalar's addition is commutative.
pub open spec fn add_commutes<T: Add<T, Output = T>>() -> bool {
    forall|x: T, y: T| #[trigger] x.add_spec(y) == y.add_spec(x)
}

/// The scalar's addition is associative wherever the scalar accepts the four additions.
pub open spec fn add_associates<T: Add<T, Output = T>>() -> bool {
    forall|x: T, y: T, z: T|
        x.add_req(y) && x.add_spec(y).add_req(z) && y.add_req(z) && x.add_req(y.add_spec(z))
            ==> #[trigger] x.add_spec(y).add_spec(z) == x.add_spec(y.add_spec(z))
}

/// The scalar's zero is neutral in addition, on either side.
pub open spec fn zero_is_neutral<T: Add<T, Output = T> + Zero>() -> bool {
    &&& forall|x: T| #[trigger] x.add_spec(T::zero_spec()) == x
    &&& forall|x: T| #[trigger] T::zero_spec().add_spec(x) == x
}

/// The scalar's multiplication is commutative.
pub open spec fn mul_commutes<T: Mul<T, Output = T>>() -> bool {
    forall|x: T, y: T| #[trigger] x.mul_spec(y) == y.mul_spec(x)
}

/// On the left of a product, the scalar's one gives the other factor and
/// its zero gives zero.
pub open spec fn one_and_zero_multiply<T: Mul<T, Output = T> + Zero + One>() -> bool {
    &&& forall|x: T| #[trigger] T::one_spec().mul_spec(x) == x
    &&& forall|x: T| #[trigger] T::zero_spec().mul_spec(x) == T::zero_spec()
}

/// A difference added to the opposite difference is the scalar's zero,
/// wherever the scalar accepts the two subtractions.
pub open spec fn differences_cancel<T: Add<T, Output = T> + Sub<T, Output = T> + Zero>() -> bool {
    forall|x: T, y: T|
        x.sub_req(y) && y.sub_req(x) ==> #[trigger] x.sub_spec(y).add_spec(y.sub_spec(x))
            == T::zero_spec()
}

/// `i32` has every law of scalars that the laws of matrices rest on.
pub proof fn lemma_i32_laws()
    ensures
        add_commutes::<i32>(),
        add_associates::<i32>(),
        zero_is_neutral::<i32>(),
        mul_commutes::<i32>(),
        one_and_zero_multiply::<i32>(),
        differences_cancel::<i32>(),
{
    assert forall|x: i32, y: i32| #[trigger] x.mul_spec(y) == y.mul_spec(x) by {
        assert(x * y == y * x) by (nonlinear_arith);
    }
}

/// Addition commutes, `A + B == B + A`, over a scalar whose addition commutes.
pub proof fn lemma_add_commutative<const R: usize, const C: usize, T: Add<T, Output = T>>(
    a: MatrixInner<R, C, T>,
    b: MatrixInner<R, C, T>,
)
    requires
        add_commutes::<T>(),
    ensures
        mat_add(a@, b@) == mat_add(b@, a@),
{
    assert(mat_add(a@, b@) =~~= mat_add(b@, a@));
}

/// Addition associates, `(A + B) + C == A + (B + C)`, over a scalar whose
/// addition associates, where the scalar accepts the additions of both sides.
pub proof fn lemma_add_associative<const R: usize, const C: usize, T: Add<T, Output = T>>(
    a: MatrixInner<R, C, T>,
    b: MatrixInner<R, C, T>,
    c: MatrixInner<R, C, T>,
)
    requires
        add_associates::<T>(),
        mat_add_req(a@, b@),
        mat_add_req(mat_add(a@, b@), c@),
        mat_add_req(b@, c@),
        mat_add_req(a@, mat_add(b@, c@)),
    ensures
        mat_add(mat_add(a@, b@), c@) == mat_add(a@, mat_add(b@, c@)),
{
    let ab = mat_add(a@, b@);
    let bc = mat_add(b@, c@);
    assert forall|i: int, j: int| 0 <= i < R && 0 <= j < C implies #[trigger] mat_add(ab, c@)[i][j]
        == mat_add(a@, bc)[i][j] by {
        assert(a@[i][j].add_req(b@[i][j]));
        assert(ab[i][j].add_req(c@[i][j]));
        assert(b@[i][j].add_req(c@[i][j]));
        assert(a@[i][j].add_req(bc[i][j]));
    }
    assert(mat_add(ab, c@) =~~= mat_add(a@, bc));
}

/// The zero matrix is neutral in addition, `A + Zero == A`, over a scalar
/// whose zero is neutral.
pub proof fn lemma_add_zero<const R: usize, const C: usize, T: Add<T, Output = T> + Zero>(
    a: MatrixInner<R, C, T>,
)
    requires
        zero_is_neutral::<T>(),
    ensures
        mat_add(a@, mat_fill(R as nat, C as nat, T::zero_spec())) == a@,
{
    assert(mat_add(a@, mat_fill(R as nat, C as nat, T::zero_spec())) =~~= a@);
}

/// Transposing twice gives the matrix back: `Transpose(Transpose(A)) == A`.
pub proof fn lemma_transpose_twice<const R: usize, const C: usize, T>(a: MatrixInner<R, C, T>)
    ensures
        mat_transpose(mat_transpose(a@, C as nat), R as nat) == a@,
{
    assert(mat_transpose(mat_transpose(a@, C as nat), R as nat) =~~= a@);
}

/// Row `r` of the identity contracted with column `c` of `a`, up to `m`:
/// zero before the diagonal is reached, cell `(r, c)` of `a` from there on.
proof fn lemma_identity_cell<T: Mul<T, Output = T> + Add<T, Output = T> + Zero + One>(
    a: Seq<Seq<T>>,
    n: nat,
    r: int,
    c: int,
    m: nat,
)
    requires
        zero_is_neutral::<T>(),
        one_and_zero_multiply::<T>(),
        0 <= r < n,
        m < n,
    ensures
        mul_cell(mat_identity::<T>(n)[r], a, c, m) == if m < r {
            T::zero_spec()
        } else {
            a[r][c]
        },
    decreases m,
{
    if m > 0 {
        lemma_identity_cell(a, n, r, c, (m - 1) as nat);
    }
}

/// The identity is neutral on the left of a product, `Identity(n) * A == A`,
/// over a scalar whose zero is neutral and whose one and zero multiply as such.
pub proof fn lemma_identity_mul<
    const R: usize,
    const C: usize,
    T: Mul<T, Output = T> + Add<T, Output = T> + Zero + One,
>(a: MatrixInner<R, C, T>)
    requires
        zero_is_neutral::<T>(),
        one_and_zero_multiply::<T>(),
    ensures
        mat_mul(mat_identity::<T>(R as nat), a@) == a@,
{
    let id = mat_identity::<T>(R as nat);
    assert forall|i: int, j: int| 0 <= i < R && 0 <= j < C implies #[trigger] mat_mul(id, a@)[i][j]
        == a@[i][j] by {
        lemma_identity_cell(a@, R as nat, i, j, (R - 1) as nat);
    }
    assert(mat_mul(id, a@) =~~= a@);
}

/// For `i32`, row `r` of the identity can be contracted with any column:
/// every product has a factor of zero or one, and every sum a term of zero.
proof fn lemma_identity_cell_req_i32(a: Seq<Seq<i32>>, n: nat, r: int, c: int, m: nat)
    requires
        0 <= r < n,
        m < n,
    ensures
        mul_cell_req(mat_identity::<i32>(n)[r], a, c, m),
    decreases m,
{
    lemma_i32_laws();
    let row = mat_identity::<i32>(n)[r];
    let y = a[m as int][c];
    assert(row[m as int] == if r == m {
        1i32
    } else {
        0i32
    });
    assert(0 * y == 0 && 1 * y == y);
    assert(row[m as int].mul_req(y));
    if m > 0 {
        lemma_identity_cell_req_i32(a, n, r, c, (m - 1) as nat);
        lemma_identity_cell(a, n, r, c, (m - 1) as nat);
    }
}

/// For `i32`, the product of the identity and any matrix can be taken.
pub proof fn lemma_identity_mul_req_i32<const R: usize, const C: usize>(a: MatrixInner<R, C, i32>)
    requires
        R >= 1,
    ensures
        mat_mul_req(mat_identity::<i32>(R as nat), a@),
{
    assert forall|i: int, j: int| 0 <= i < R && 0 <= j < C implies #[trigger] mul_cell_req(
        mat_identity::<i32>(R as nat)[i],
        a@,
        j,
        (R - 1) as nat,
    ) by {
        lemma_identity_cell_req_i32(a@, R as nat, i, j, (R - 1) as nat);
    }
}

/// The dot product from one seed is the same in either order of the vectors.
pub proof fn lemma_dot_from_commutative<T: Mul<T, Output = T> + Add<T, Output = T>>(
    seed: T,
    a: Seq<T>,
    b: Seq<T>,
    n: nat,
)
    requires
        mul_commutes::<T>(),
    ensures
        dot_from(seed, a, b, n) == dot_from(seed, b, a, n),
    decreases n,
{
    if n > 0 {
        lemma_dot_from_commutative(seed, a, b, (n - 1) as nat);
    }
}

/// The dot product commutes, `dot(a, b) == dot(b, a)`, over a scalar whose
/// multiplication commutes: what one order may give, the other may give.
pub proof fn lemma_dot_commutative<
    const C: usize,
    T: Default + Mul<T, Output = T> + Add<T, Output = T>,
>(a: Vector<C, T>, b: Vector<C, T>, out: T)
    requires
        mul_commutes::<T>(),
    ensures
        is_vec_dot(a@[0], b@[0], out) <==> is_vec_dot(b@[0], a@[0], out),
{
    if is_vec_dot(a@[0], b@[0], out) {
        let seed = choose|seed: T| #[trigger]
            call_ensures(T::default, (), seed) && out == dot_from(seed, a@[0], b@[0], a@[0].len());
        lemma_dot_from_commutative(seed, a@[0], b@[0], C as nat);
    }
    if is_vec_dot(b@[0], a@[0], out) {
        let seed = choose|seed: T| #[trigger]
            call_ensures(T::default, (), seed) && out == dot_from(seed, b@[0], a@[0], b@[0].len());
        lemma_dot_from_commutative(seed, a@[0], b@[0], C as nat);
    }
}

/// The cross product of two vectors of three components is the additive
/// inverse of their cross product in the other order: the two add up to the
/// zero vector, over a scalar whose multiplication commutes and whose
/// opposite differences cancel.
pub proof fn lemma_cross_antisymmetric<
    T: Mul<T, Output = T> + Sub<T, Output = T> + Add<T, Output = T> + Zero,
>(a: Vector3<T>, b: Vector3<T>)
    requires
        mul_commutes::<T>(),
        differences_cancel::<T>(),
        cross3_req(a@[0], b@[0]),
        cross3_req(b@[0], a@[0]),
    ensures
        mat_add(seq![cross3(a@[0], b@[0])], seq![cross3(b@[0], a@[0])]) == mat_fill(
            1,
            3,
            T::zero_spec(),
        ),
{
    let u = a@[0];
    let v = b@[0];
    let ab = cross3(u, v);
    let ba = cross3(v, u);
    assert(ab[0].add_spec(ba[0]) == T::zero_spec());
    assert(ab[1].add_spec(ba[1]) == T::zero_spec());
    assert(ab[2].add_spec(ba[2]) == T::zero_spec());
    assert(mat_add(seq![ab], seq![ba]) =~~= mat_fill(1, 3, T::zero_spec()));
}

/// The four forms of `+` between matrices, with operands owned or borrowed, are one
/// function: they accept the same operands and give the same result.
pub proof fn lemma_add_forms_agree<const R: usize, const C: usize, T: Copy + Add<T, Output = T>>(a: MatrixInner<R, C, T>, b: MatrixInner<R, C, T>)
    ensures
        <MatrixInner<R, C, T> as AddSpec<MatrixInner<R, C, T>>>::add_spec(a, b) == <&MatrixInner<R, C, T> as AddSpec<&MatrixInner<R, C, T>>>::add_spec(&a, &b),
        <MatrixInner<R, C, T> as AddSpec<&MatrixInner<R, C, T>>>::add_spec(a, &b) == <&MatrixInner<R, C, T> as AddSpec<&MatrixInner<R, C, T>>>::add_spec(&a, &b),
        <&MatrixInner<R, C, T> as AddSpec<MatrixInner<R, C, T>>>::add_spec(&a, b) == <&MatrixInner<R, C, T> as AddSpec<&MatrixInner<R, C, T>>>::add_spec(&a, &b),
        <MatrixInner<R, C, T> as AddSpec<MatrixInner<R, C, T>>>::add_req(a, b) == <&MatrixInner<R, C, T> as AddSpec<&MatrixInner<R, C, T>>>::add_req(&a, &b),
        <MatrixInner<R, C, T> as AddSpec<&MatrixInner<R, C, T>>>::add_req(a, &b) == <&MatrixInner<R, C, T> as AddSpec<&MatrixInner<R, C, T>>>::add_req(&a, &b),
        <&MatrixInner<R, C, T> as AddSpec<MatrixInner<R, C, T>>>::add_req(&a, b) == <&MatrixInner<R, C, T> as AddSpec<&MatrixInner<R, C, T>>>::add_req(&a, &b),
{
}

/// The four forms of `-` between matrices, with operands owned or borrowed, are one
/// function: they accept the same operands and give the same result.
pub proof fn lemma_sub_forms_agree<const R: usize, const C: usize, T: Copy + Sub<T, Output = T>>(a: MatrixInner<R, C, T>, b: MatrixInner<R, C, T>)
    ensures
        <MatrixInner<R, C, T> as SubSpec<MatrixInner<R, C, T>>>::sub_spec(a, b) == <&MatrixInner<R, C, T> as SubSpec<&MatrixInner<R, C, T>>>::sub_spec(&a, &b),
        <MatrixInner<R, C, T> as SubSpec<&MatrixInner<R, C, T>>>::sub_spec(a, &b) == <&MatrixInner<R, C, T> as SubSpec<&MatrixInner<R, C, T>>>::sub_spec(&a, &b),
        <&MatrixInner<R, C, T> as SubSpec<MatrixInner<R, C, T>>>::sub_spec(&a, b) == <&MatrixInner<R, C, T> as SubSpec<&MatrixInner<R, C, T>>>::sub_spec(&a, &b),
        <MatrixInner<R, C, T> as SubSpec<MatrixInner<R, C, T>>>::sub_req(a, b) == <&MatrixInner<R, C, T> as SubSpec<&MatrixInner<R, C, T>>>::sub_req(&a, &b),
        <MatrixInner<R, C, T> as SubSpec<&MatrixInner<R, C, T>>>::sub_req(a, &b) == <&MatrixInner<R, C, T> as SubSpec<&MatrixInner<R, C, T>>>::sub_req(&a, &b),
        <&MatrixInner<R, C, T> as SubSpec<MatrixInner<R, C, T>>>::sub_req(&a, b) == <&MatrixInner<R, C, T> as SubSpec<&MatrixInner<R, C, T>>>::sub_req(&a, &b),
{
}

/// The four forms of `*` between matrices, with operands owned or borrowed, are one
/// function: they accept the same operands and give the same result.
pub proof fn lemma_mul_forms_agree<const R: usize, const M: usize, const C: usize, T: Copy + Mul<T, Output = T> + Add<T, Output = T>>(a: MatrixInner<R, M, T>, b: MatrixInner<M, C, T>)
    ensures
        <MatrixInner<R, M, T> as MulSpec<MatrixInner<M, C, T>>>::mul_spec(a, b) == <&MatrixInner<R, M, T> as MulSpec<&MatrixInner<M, C, T>>>::mul_spec(&a, &b),
        <MatrixInner<R, M, T> as MulSpec<&MatrixInner<M, C, T>>>::mul_spec(a, &b) == <&MatrixInner<R, M, T> as MulSpec<&MatrixInner<M, C, T>>>::mul_spec(&a, &b),
        <&MatrixInner<R, M, T> as MulSpec<MatrixInner<M, C, T>>>::mul_spec(&a, b) == <&MatrixInner<R, M, T> as MulSpec<&MatrixInner<M, C, T>>>::mul_spec(&a, &b),
        <MatrixInner<R, M, T> as MulSpec<MatrixInner<M, C, T>>>::mul_req(a, b) == <&MatrixInner<R, M, T> as MulSpec<&MatrixInner<M, C, T>>>::mul_req(&a, &b),
        <MatrixInner<R, M, T> as MulSpec<&MatrixInner<M, C, T>>>::mul_req(a, &b) == <&MatrixInner<R, M, T> as MulSpec<&MatrixInner<M, C, T>>>::mul_req(&a, &b),
        <&MatrixInner<R, M, T> as MulSpec<MatrixInner<M, C, T>>>::mul_req(&a, b) == <&MatrixInner<R, M, T> as MulSpec<&MatrixInner<M, C, T>>>::mul_req(&a, &b),
{
}

/// The four forms of `*` between a matrix and a scalar, with operands owned or borrowed, are one
/// function: they accept the same operands and give the same result.
pub proof fn lemma_scale_forms_agree<const R: usize, const C: usize, T: Copy + Mul<T, Output = T>>(a: MatrixInner<R, C, T>, b: T)
    ensures
        <MatrixInner<R, C, T> as MulSpec<T>>::mul_spec(a, b) == <&MatrixInner<R, C, T> as MulSpec<&T>>::mul_spec(&a, &b),
        <MatrixInner<R, C, T> as MulSpec<&T>>::mul_spec(a, &b) == <&MatrixInner<R, C, T> as MulSpec<&T>>::mul_spec(&a, &b),
        <&MatrixInner<R, C, T> as MulSpec<T>>::mul_spec(&a, b) == <&MatrixInner<R, C, T> as MulSpec<&T>>::mul_spec(&a, &b),
        <MatrixInner<R, C, T> as MulSpec<T>>::mul_req(a, b) == <&MatrixInner<R, C, T> as MulSpec<&T>>::mul_req(&a, &b),
        <MatrixInner<R, C, T> as MulSpec<&T>>::mul_req(a, &b) == <&MatrixInner<R, C, T> as MulSpec<&T>>::mul_req(&a, &b),
        <&MatrixInner<R, C, T> as MulSpec<T>>::mul_req(&a, b) == <&MatrixInner<R, C, T> as MulSpec<&T>>::mul_req(&a, &b),
{
}

/// The four forms of `/` between a matrix and a scalar, with operands owned or borrowed, are one
/// function: they accept the same operands and give the same result.
pub proof fn lemma_div_forms_agree<const R: usize, const C: usize, T: Copy + Div<T, Output = T>>(a: MatrixInner<R, C, T>, b: T)
    ensures
        <MatrixInner<R, C, T> as DivSpec<T>>::div_spec(a, b) == <&MatrixInner<R, C, T> as DivSpec<&T>>::div_spec(&a, &b),
        <MatrixInner<R, C, T> as DivSpec<&T>>::div_spec(a, &b) == <&MatrixInner<R, C, T> as DivSpec<&T>>::div_spec(&a, &b),
        <&MatrixInner<R, C, T> as DivSpec<T>>::div_spec(&a, b) == <&MatrixInner<R, C, T> as DivSpec<&T>>::div_spec(&a, &b),
        <MatrixInner<R, C, T> as DivSpec<T>>::div_req(a, b) == <&MatrixInner<R, C, T> as DivSpec<&T>>::div_req(&a, &b),
        <MatrixInner<R, C, T> as DivSpec<&T>>::div_req(a, &b) == <&MatrixInner<R, C, T> as DivSpec<&T>>::div_req(&a, &b),
        <&MatrixInner<R, C, T> as DivSpec<T>>::div_req(&a, b) == <&MatrixInner<R, C, T> as DivSpec<&T>>::div_req(&a, &b),
{
}

} // verus!
