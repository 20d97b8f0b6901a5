use juxt::matrix::Cross;
use juxt::matrix::CrossAssign;
use juxt::matrix::Dot;
use juxt::matrix::Matrix2;
use juxt::matrix::Matrix2i;
use juxt::matrix::Matrix3i;
use juxt::matrix::Matrix;
use juxt::matrix::One;
use juxt::matrix::Transpose;
use juxt::matrix::TransposeAssign;
use juxt::matrix::Vector2i;
use juxt::matrix::Vector3;
use juxt::matrix::Vector3i;
use juxt::matrix::Vector4i;
use juxt::matrix::W;
use juxt::matrix::WMut;
use juxt::matrix::WRef;
use juxt::matrix::X;
use juxt::matrix::XMut;
use juxt::matrix::XRef;
use juxt::matrix::Y;
use juxt::matrix::YMut;
use juxt::matrix::YRef;
use juxt::matrix::Z;
use juxt::matrix::Zero;
use juxt::matrix::ZMut;
use juxt::matrix::ZRef;
use std::ops::Add;
use std::ops::Mul;

#[test]
fn matrix_it_works() {
    let m0 = Into::<Vector2i>::into([0, 1]);
    let m1 = m0.clone();
    assert_eq!(m0, m1);

    let m2 = m0.transpose();
    let m3 = Into::<_>::into([[0], [1]]);
    assert_eq!(m2, m3);

    let m4 = Matrix::identity();
    let m5 = Into::<_>::into([[1, 0, 0], [0, 1, 0], [0, 0, 1]]);
    assert_eq!(m4, m5);

    let mut m6 = Into::<Matrix2<_>>::into([[0.0, 1.0], [2.0, 3.0]]);
    let m7 = Into::<_>::into([[0.0, 2.0], [4.0, 6.0]]);
    assert_eq!(m6 + m6, m7);
    assert_eq!(m6 + &m6, m7);
    assert_eq!(&m6 + m6, m7);
    m6 += m6;
    assert_eq!(m6, m7);

    let mut m8 = Into::<Matrix2<_>>::into([[0.0, 1.0], [2.0, 3.0]]);
    let m9 = Default::default();
    assert_eq!(m8 - m8, m9);
    assert_eq!(m8 - &m8, m9);
    assert_eq!(&m8 - m8, m9);
    m8 -= m8;
    assert_eq!(m8, m9);
}

#[test]
fn the_four_forms_of_each_operator_agree() {
    let a: Matrix2i = [[0, 1], [2, 3]].into();
    let b: Matrix2i = [[5, 7], [11, 13]].into();
    let sum: Matrix2i = [[5, 8], [13, 16]].into();
    assert_eq!(a + b, sum);
    assert_eq!(a + &b, sum);
    assert_eq!(&a + b, sum);
    assert_eq!(&a + &b, sum);

    let difference: Matrix2i = [[-5, -6], [-9, -10]].into();
    assert_eq!(a - b, difference);
    assert_eq!(a - &b, difference);
    assert_eq!(&a - b, difference);
    assert_eq!(&a - &b, difference);

    let product: Matrix2i = [[11, 13], [43, 53]].into();
    assert_eq!(a * b, product);
    assert_eq!(a * &b, product);
    assert_eq!(&a * b, product);
    assert_eq!(&a * &b, product);

    let scaled: Matrix2i = [[0, 3], [6, 9]].into();
    assert_eq!(a * 3, scaled);
    assert_eq!(a * &3, scaled);
    assert_eq!(&a * 3, scaled);
    assert_eq!(&a * &3, scaled);

    let halved: Matrix2i = [[2, 3], [5, 6]].into();
    assert_eq!(b / 2, halved);
    assert_eq!(b / &2, halved);
    assert_eq!(&b / 2, halved);
    assert_eq!(&b / &2, halved);

    let u: Vector3i = [1, 2, 3].into();
    let v: Vector3i = [4, 5, 6].into();
    assert_eq!(u.dot(v), 32);
    assert_eq!(u.dot(&v), 32);
    assert_eq!((&u).dot(v), 32);
    assert_eq!((&u).dot(&v), 32);

    let w: Vector3i = [-3, 6, -3].into();
    assert_eq!(u.cross(v), w);
    assert_eq!(u.cross(&v), w);
    assert_eq!((&u).cross(v), w);
    assert_eq!((&u).cross(&v), w);
}

#[test]
fn the_in_place_forms_agree_with_the_operators() {
    let a: Matrix2i = [[0, 1], [2, 3]].into();
    let b: Matrix2i = [[5, 7], [11, 13]].into();

    let mut m = a;
    m += b;
    assert_eq!(m, a + b);
    let mut m = a;
    m += &b;
    assert_eq!(m, a + b);

    let mut m = a;
    m -= b;
    assert_eq!(m, a - b);
    let mut m = a;
    m -= &b;
    assert_eq!(m, a - b);

    let mut m = a;
    m *= b;
    assert_eq!(m, a * b);
    let mut m = a;
    m *= &b;
    assert_eq!(m, Into::<Matrix2i>::into([[11, 13], [43, 53]]));

    let mut m = a;
    m *= 3;
    assert_eq!(m, a * 3);
    let mut m = a;
    m *= &3;
    assert_eq!(m, a * 3);

    let mut m = b;
    m /= 2;
    assert_eq!(m, b / 2);
    let mut m = b;
    m /= &2;
    assert_eq!(m, Into::<Matrix2i>::into([[2, 3], [5, 6]]));
}

#[test]
fn the_product_contracts_rows_with_columns() {
    let a: Matrix<2, 3, i32> = [[1, 2, 3], [4, 5, 6]].into();
    let b: Matrix<3, 2, i32> = [[7, 8], [9, 10], [11, 12]].into();
    let ab: Matrix<2, 2, i32> = [[58, 64], [139, 154]].into();
    let ba: Matrix<3, 3, i32> = [[39, 54, 69], [49, 68, 87], [59, 82, 105]].into();
    assert_eq!(a * b, ab);
    assert_eq!(b * a, ba);

    let row: Matrix<1, 1, i32> = [[5]].into();
    let one: Matrix<1, 1, i32> = [[7]].into();
    assert_eq!(row * one, Into::<Matrix<1, 1, i32>>::into([[35]]));
}

#[test]
fn addition_commutes_associates_and_has_zero() {
    let a: Matrix<2, 3, i32> = [[1, -2, 3], [4, 5, -6]].into();
    let b: Matrix<2, 3, i32> = [[7, 8, 9], [-10, 11, 12]].into();
    let c: Matrix<2, 3, i32> = [[100, 200, 300], [400, 500, 600]].into();
    let zero: Matrix<2, 3, i32> = Default::default();
    assert_eq!(a + b, b + a);
    assert_eq!((a + b) + c, a + (b + c));
    assert_eq!(a + zero, a);
    assert_eq!(zero, Into::<Matrix<2, 3, i32>>::into([[0, 0, 0], [0, 0, 0]]));
}

#[test]
fn transposing_twice_gives_the_matrix_back() {
    let a: Matrix<2, 3, i32> = [[1, 2, 3], [4, 5, 6]].into();
    let t: Matrix<3, 2, i32> = [[1, 4], [2, 5], [3, 6]].into();
    assert_eq!(a.transpose(), t);
    assert_eq!(a.transpose().transpose(), a);

    let mut s: Matrix3i = [[1, 2, 3], [4, 5, 6], [7, 8, 9]].into();
    let before = s;
    s.transpose_assign();
    assert_eq!(s, Into::<Matrix3i>::into([[1, 4, 7], [2, 5, 8], [3, 6, 9]]));
    assert_eq!(s, before.transpose());
    s.transpose_assign();
    assert_eq!(s, before);
}

#[test]
fn the_identity_is_neutral_on_the_left() {
    let a: Matrix<3, 2, i32> = [[1, 2], [3, 4], [5, 6]].into();
    let id: Matrix3i = Matrix::identity();
    assert_eq!(id * a, a);
    let id2: Matrix2i = Matrix::identity();
    assert_eq!(id2, Into::<Matrix2i>::into([[1, 0], [0, 1]]));
    let id1: Matrix<1, 1, u8> = Matrix::identity();
    assert_eq!(id1, Into::<Matrix<1, 1, u8>>::into([[1]]));
}

#[test]
fn the_dot_product_commutes() {
    let a: Vector3i = [1, -2, 3].into();
    let b: Vector3i = [4, 5, -6].into();
    assert_eq!(a.dot(b), -24);
    assert_eq!(a.dot(b), b.dot(a));
    let p: Vector2i = [3, 4].into();
    assert_eq!(p.dot(p), 25);
}

#[test]
fn the_cross_product_changes_sign_with_the_order() {
    let a: Vector3i = [1, 2, 3].into();
    let b: Vector3i = [4, 5, 6].into();
    let zero: Vector3i = Default::default();
    assert_eq!(a.cross(b), Into::<Vector3i>::into([-3, 6, -3]));
    assert_eq!(b.cross(a), Into::<Vector3i>::into([3, -6, 3]));
    assert_eq!(a.cross(b) + b.cross(a), zero);

    let x: Vector3i = [1, 0, 0].into();
    let y: Vector3i = [0, 1, 0].into();
    let z: Vector3i = [0, 0, 1].into();
    assert_eq!(x.cross(y), z);
    assert_eq!(y.cross(z), x);
    assert_eq!(z.cross(x), y);

    let mut m = a;
    m.cross_assign(b);
    assert_eq!(m, a.cross(b));
    let mut m = a;
    m.cross_assign(&b);
    assert_eq!(m, a.cross(b));
}

#[test]
fn the_cross_product_of_four_components_clears_the_fourth() {
    let a: Vector4i = [1, 2, 3, 9].into();
    let b: Vector4i = [4, 5, 6, -7].into();
    let c: Vector4i = [-3, 6, -3, 0].into();
    assert_eq!(a.cross(b), c);
    assert_eq!(a.cross(&b), c);
    assert_eq!((&a).cross(b), c);
    assert_eq!((&a).cross(&b), c);

    let mut m = a;
    m.cross_assign(b);
    assert_eq!(m, c);
    let mut m = a;
    m.cross_assign(&b);
    assert_eq!(m, c);
}

#[test]
fn components_have_names() {
    let mut v2: Vector2i = [1, 2].into();
    assert_eq!((v2.x(), v2.y()), (1, 2));
    assert_eq!((v2.x_ref(), v2.y_ref()), (&1, &2));
    *v2.x_mut() = 10;
    *v2.y_mut() += 20;
    assert_eq!(v2, Into::<Vector2i>::into([10, 22]));

    let mut v3: Vector3i = [1, 2, 3].into();
    assert_eq!((v3.x(), v3.y(), v3.z()), (1, 2, 3));
    assert_eq!((v3.x_ref(), v3.y_ref(), v3.z_ref()), (&1, &2, &3));
    *v3.x_mut() = 10;
    *v3.y_mut() = 20;
    *v3.z_mut() = 30;
    assert_eq!(v3, Into::<Vector3i>::into([10, 20, 30]));

    let mut v4: Vector4i = [1, 2, 3, 4].into();
    assert_eq!((v4.x(), v4.y(), v4.z(), v4.w()), (1, 2, 3, 4));
    assert_eq!((v4.x_ref(), v4.y_ref(), v4.z_ref(), v4.w_ref()), (&1, &2, &3, &4));
    *v4.x_mut() = 10;
    *v4.y_mut() = 20;
    *v4.z_mut() = 30;
    *v4.w_mut() = 40;
    assert_eq!(v4, Into::<Vector4i>::into([10, 20, 30, 40]));
}

#[test]
fn integers_have_a_zero_and_a_one() {
    assert_eq!((u8::zero(), u8::one()), (0, 1));
    assert_eq!((u16::zero(), u16::one()), (0, 1));
    assert_eq!((u32::zero(), u32::one()), (0, 1));
    assert_eq!((u64::zero(), u64::one()), (0, 1));
    assert_eq!((u128::zero(), u128::one()), (0, 1));
    assert_eq!((usize::zero(), usize::one()), (0, 1));
    assert_eq!((i8::zero(), i8::one()), (0, 1));
    assert_eq!((i16::zero(), i16::one()), (0, 1));
    assert_eq!((i32::zero(), i32::one()), (0, 1));
    assert_eq!((i64::zero(), i64::one()), (0, 1));
    assert_eq!((i128::zero(), i128::one()), (0, 1));
    assert_eq!((isize::zero(), isize::one()), (0, 1));
}

#[test]
fn matrices_compare_cell_by_cell() {
    let a: Matrix2i = [[1, 2], [3, 4]].into();
    let b: Matrix2i = [[1, 2], [3, 5]].into();
    assert_eq!(a, a.clone());
    assert_ne!(a, b);
    assert!(a != b);
    let v: Vector3i = [7, 8, 9].into();
    let m: Matrix<1, 3, i32> = [[7, 8, 9]].into();
    assert_eq!(v, m);
    assert_eq!(a.elements, [[1, 2], [3, 4]]);
}

/// A scalar whose default value is not neutral in addition.
#[derive(Clone, Copy, Debug, PartialEq)]
struct Offset(i32);

impl Default for Offset {
    fn default() -> Self {
        Offset(100)
    }
}

impl Add for Offset {
    type Output = Offset;

    fn add(self, rhs: Offset) -> Offset {
        Offset(self.0 + rhs.0)
    }
}

impl Mul for Offset {
    type Output = Offset;

    fn mul(self, rhs: Offset) -> Offset {
        Offset(self.0 * rhs.0)
    }
}

#[test]
fn the_dot_product_starts_from_the_default_and_the_matrix_product_does_not() {
    let a: Matrix<1, 2, Offset> = [[Offset(1), Offset(2)]].into();
    let b: Matrix<2, 1, Offset> = [[Offset(3)], [Offset(4)]].into();
    assert_eq!(a * b, Into::<Matrix<1, 1, Offset>>::into([[Offset(11)]]));
    let u: Matrix<1, 2, Offset> = [[Offset(3), Offset(4)]].into();
    assert_eq!(a.dot(u), Offset(111));
    let filled: Matrix<2, 2, Offset> = Default::default();
    assert_eq!(filled, Into::<Matrix<2, 2, Offset>>::into([[Offset(100), Offset(100)], [Offset(100), Offset(100)]]));
}

/// A scalar whose addition keeps to a range, so the order of additions shows.
#[derive(Clone, Copy, Debug, PartialEq)]
struct Capped(i32);

impl Add for Capped {
    type Output = Capped;

    fn add(self, rhs: Capped) -> Capped {
        Capped((self.0 + rhs.0).clamp(-10, 10))
    }
}

impl Mul for Capped {
    type Output = Capped;

    fn mul(self, rhs: Capped) -> Capped {
        Capped(self.0 * rhs.0)
    }
}

#[test]
fn the_product_adds_in_ascending_order_from_the_first_term() {
    let a: Matrix<1, 3, Capped> = [[Capped(1), Capped(1), Capped(1)]].into();
    let b: Matrix<3, 1, Capped> = [[Capped(50)], [Capped(-45)], [Capped(-20)]].into();
    // (50 + -45) = 5, then 5 + -20 = -15, capped to -10; the first term is not capped.
    assert_eq!(a * b, Into::<Matrix<1, 1, Capped>>::into([[Capped(-10)]]));
    let c: Matrix<3, 1, Capped> = [[Capped(-20)], [Capped(-45)], [Capped(50)]].into();
    // (-20 + -45) capped to -10, then -10 + 50 capped to 10.
    assert_eq!(a * c, Into::<Matrix<1, 1, Capped>>::into([[Capped(10)]]));
    let d: Matrix<1, 1, Capped> = [[Capped(3)]].into();
    let e: Matrix<1, 1, Capped> = [[Capped(50)]].into();
    assert_eq!(d * e, Into::<Matrix<1, 1, Capped>>::into([[Capped(150)]]));
}

#[test]
fn float_matrices_take_the_same_operators() {
    let a: Matrix2<f64> = [[1.5, 2.0], [0.25, -4.0]].into();
    let half: Matrix2<f64> = [[0.75, 1.0], [0.125, -2.0]].into();
    assert_eq!(a / 2.0, half);
    assert_eq!(half * 2.0, a);
    let v: Vector3<f32> = [3.0, 4.0, 0.0].into();
    assert_eq!(v.dot(v), 25.0);
    let by_zero = v / 0.0;
    assert!(by_zero.elements[0][0].is_infinite());
    assert!(by_zero.elements[0][2].is_nan());
}

#[test]
fn a_float_matrix_plus_and_minus_itself_in_every_form() {
    let mut m: Matrix2<f32> = [[0.0, 1.0], [2.0, 3.0]].into();
    let twice: Matrix2<f32> = [[0.0, 2.0], [4.0, 6.0]].into();
    assert_eq!(m + m, twice);
    assert_eq!(m + &m, twice);
    assert_eq!(&m + m, twice);
    assert_eq!(&m + &m, twice);
    m += m;
    assert_eq!(m, twice);

    let mut m: Matrix2<f32> = [[0.0, 1.0], [2.0, 3.0]].into();
    let nothing: Matrix2<f32> = [[0.0, 0.0], [0.0, 0.0]].into();
    assert_eq!(m - m, nothing);
    assert_eq!(m - &m, nothing);
    assert_eq!(&m - m, nothing);
    assert_eq!(&m - &m, nothing);
    assert_eq!(nothing, Default::default());
    m -= m;
    assert_eq!(m, nothing);
}

#[test]
fn a_float_vector_divided_by_its_length_has_length_one() {
    let vectors: [Vector3<f32>; 3] = [[3.0, 4.0, 0.0].into(), [1.0, 1.0, 1.0].into(), [-0.5, 20.0, 7.25].into()];
    for v in vectors {
        let length = v.dot(v).sqrt();
        let unit = v / length;
        assert!((unit.dot(unit).sqrt() - 1.0).abs() < 1e-6);
    }
}
