//! The cross product of vectors of three and of four components.

use crate::matrix::inner::MatrixInner;
use crate::matrix::inner::Vector3;
use crate::matrix::inner::Vector4;
use crate::matrix::scalar::Zero;
use std::ops::Mul;
use std::ops::Sub;
use vstd::prelude::*;
use vstd::std_specs::ops::MulSpec;
use vstd::std_specs::ops::SubSpec;

verus! {

/// A value with a cross product, into a new value.
pub trait Cross<Rhs = Self>: Sized {
    type Output;

    /// Whether the cross product with `rhs` can be taken.
    spec fn cross_req(self, rhs: Rhs) -> bool;

    fn cross(self, rhs: Rhs) -> (out: Self::Output)
        requires
            self.cross_req(rhs),
    ;
}

/// A value with a cross product, in place.
pub trait CrossAssign<Rhs = Self> {
    /// Whether the cross product with `rhs` can be taken.
    spec fn cross_assign_req(&self, rhs: Rhs) -> bool;

    fn cross_assign(&mut self, rhs: Rhs)
        requires
            old(self).cross_assign_req(rhs),
    ;
}

/// One component of a cross product: `p * q - s * t`.
pub open spec fn cross_term<T: Mul<T, Output = T> + Sub<T, Output = T>>(p: T, q: T, s: T, t: T) -> T {
    p.mul_spec(q).sub_spec(s.mul_spec(t))
}

/// The scalar accepts the two products and the subtraction of `cross_term`.
pub open spec fn cross_term_req<T: Mul<T, Output = T> + Sub<T, Output = T>>(
    p: T,
    q: T,
    s: T,
    t: T,
) -> bool {
    &&& p.mul_req(q)
    &&& s.mul_req(t)
    &&& p.mul_spec(q).sub_req(s.mul_spec(t))
}

/// The cross product of the first three components of `a` and of `b`.
pub open spec fn cross3<T: Mul<T, Output = T> + Sub<T, Output = T>>(a: Seq<T>, b: Seq<T>) -> Seq<T> {
    seq![
        cross_term(a[1], b[2], a[2], b[1]),
        cross_term(a[2], b[0], a[0], b[2]),
        cross_term(a[0], b[1], a[1], b[0]),
    ]
}

/// The scalar's operators are what their specifications say, and the scalar
/// accepts every operation that `cross3` takes.
pub open spec fn cross3_req<T: Mul<T, Output = T> + Sub<T, Output = T>>(a: Seq<T>, b: Seq<T>) -> bool {
    &&& T::obeys_mul_spec() && T::obeys_sub_spec()
    &&& cross_term_req(a[1], b[2], a[2], b[1])
    &&& cross_term_req(a[2], b[0], a[0], b[2])
    &&& cross_term_req(a[0], b[1], a[1], b[0])
}

/// The cross product of two vectors of four components: that of their first
/// three components, and the scalar's zero as the fourth, whatever the
/// fourth components of `a` and `b` are.
pub open spec fn cross4<T: Mul<T, Output = T> + Sub<T, Output = T> + Zero>(
    a: Seq<T>,
    b: Seq<T>,
) -> Seq<T> {
    cross3(a, b).push(T::zero_spec())
}

impl<T: Copy + Mul<T, Output = T> + Sub<T, Output = T>> Cross<&Vector3<T>> for &Vector3<T> {
    type Output = Vector3<T>;

    open spec fn cross_req(self, rhs: &Vector3<T>) -> bool {
        cross3_req(self@[0], rhs@[0])
    }

    /// The cross product of two vectors. The other three forms come here.
    fn cross(self, rhs: &Vector3<T>) -> (out: Vector3<T>)
        ensures
            out@ == seq![cross3(self@[0], rhs@[0])],
    {
        let a = &self.elements[0];
        let b = &rhs.elements[0];
        let out = MatrixInner {
            elements: [[a[1] * b[2] - a[2] * b[1], a[2] * b[0] - a[0] * b[2], a[0] * b[1] - a[1] * b[0]]],
        };
        proof {
            assert(out@ =~~= seq![cross3(self@[0], rhs@[0])]);
        }
        out
    }
}

impl<T: Copy + Mul<T, Output = T> + Sub<T, Output = T>> Cross<Vector3<T>> for Vector3<T> {
    type Output = Vector3<T>;

    open spec fn cross_req(self, rhs: Vector3<T>) -> bool {
        cross3_req(self@[0], rhs@[0])
    }

    fn cross(self, rhs: Vector3<T>) -> (out: Vector3<T>)
        ensures
            out@ == seq![cross3(self@[0], rhs@[0])],
    {
        (&self).cross(&rhs)
    }
}

impl<T: Copy + Mul<T, Output = T> + Sub<T, Output = T>> Cross<&Vector3<T>> for Vector3<T> {
    type Output = Vector3<T>;

    open spec fn cross_req(self, rhs: &Vector3<T>) -> bool {
        cross3_req(self@[0], rhs@[0])
    }

    fn cross(self, rhs: &Vector3<T>) -> (out: Vector3<T>)
        ensures
            out@ == seq![cross3(self@[0], rhs@[0])],
    {
        (&self).cross(rhs)
    }
}

impl<T: Copy + Mul<T, Output = T> + Sub<T, Output = T>> Cross<Vector3<T>> for &Vector3<T> {
    type Output = Vector3<T>;

    open spec fn cross_req(self, rhs: Vector3<T>) -> bool {
        cross3_req(self@[0], rhs@[0])
    }

    fn cross(self, rhs: Vector3<T>) -> (out: Vector3<T>)
        ensures
            out@ == seq![cross3(self@[0], rhs@[0])],
    {
        self.cross(&rhs)
    }
}

impl<T: Copy + Mul<T, Output = T> + Sub<T, Output = T>> CrossAssign<&Vector3<T>> for Vector3<T> {
    open spec fn cross_assign_req(&self, rhs: &Vector3<T>) -> bool {
        cross3_req(self@[0], rhs@[0])
    }

    /// Replaces the vector by its cross product with `rhs`.
    fn cross_assign(&mut self, rhs: &Vector3<T>)
        ensures
            final(self)@ == seq![cross3(old(self)@[0], rhs@[0])],
    {
        let out = (&*self).cross(rhs);
        *self = out;
    }
}

impl<T: Copy + Mul<T, Output = T> + Sub<T, Output = T>> CrossAssign<Vector3<T>> for Vector3<T> {
    open spec fn cross_assign_req(&self, rhs: Vector3<T>) -> bool {
        cross3_req(self@[0], rhs@[0])
    }

    fn cross_assign(&mut self, rhs: Vector3<T>)
        ensures
            final(self)@ == seq![cross3(old(self)@[0], rhs@[0])],
    {
        self.cross_assign(&rhs)
    }
}

impl<T: Copy + Zero + Mul<T, Output = T> + Sub<T, Output = T>> Cross<&Vector4<T>> for &Vector4<T> {
    type Output = Vector4<T>;

    open spec fn cross_req(self, rhs: &Vector4<T>) -> bool {
        cross3_req(self@[0], rhs@[0])
    }

    /// The cross product of the first three components, with zero as the
    /// fourth. The other three forms come here.
    fn cross(self, rhs: &Vector4<T>) -> (out: Vector4<T>)
        ensures
            out@ == seq![cross4(self@[0], rhs@[0])],
    {
        let a = &self.elements[0];
        let b = &rhs.elements[0];
        let out = MatrixInner {
            elements: [
                [
                    a[1] * b[2] - a[2] * b[1],
                    a[2] * b[0] - a[0] * b[2],
                    a[0] * b[1] - a[1] * b[0],
                    T::zero(),
                ],
            ],
        };
        proof {
            assert(out@ =~~= seq![cross4(self@[0], rhs@[0])]);
        }
        out
    }
}

impl<T: Copy + Zero + Mul<T, Output = T> + Sub<T, Output = T>> Cross<Vector4<T>> for Vector4<T> {
    type Output = Vector4<T>;

    open spec fn cross_req(self, rhs: Vector4<T>) -> bool {
        cross3_req(self@[0], rhs@[0])
    }

    fn cross(self, rhs: Vector4<T>) -> (out: Vector4<T>)
        ensures
            out@ == seq![cross4(self@[0], rhs@[0])],
    {
        (&self).cross(&rhs)
    }
}

impl<T: Copy + Zero + Mul<T, Output = T> + Sub<T, Output = T>> Cross<&Vector4<T>> for Vector4<T> {
    type Output = Vector4<T>;

    open spec fn cross_req(self, rhs: &Vector4<T>) -> bool {
        cross3_req(self@[0], rhs@[0])
    }

    fn cross(self, rhs: &Vector4<T>) -> (out: Vector4<T>)
        ensures
            out@ == seq![cross4(self@[0], rhs@[0])],
    {
        (&self).cross(rhs)
    }
}

impl<T: Copy + Zero + Mul<T, Output = T> + Sub<T, Output = T>> Cross<Vector4<T>> for &Vector4<T> {
    type Output = Vector4<T>;

    open spec fn cross_req(self, rhs: Vector4<T>) -> bool {
        cross3_req(self@[0], rhs@[0])
    }

    fn cross(self, rhs: Vector4<T>) -> (out: Vector4<T>)
        ensures
            out@ == seq![cross4(self@[0], rhs@[0])],
    {
        self.cross(&rhs)
    }
}

impl<T: Copy + Zero + Mul<T, Output = T> + Sub<T, Output = T>> CrossAssign<&Vector4<T>> for Vector4<T> {
    open spec fn cross_assign_req(&self, rhs: &Vector4<T>) -> bool {
        cross3_req(self@[0], rhs@[0])
    }

    /// Replaces the vector by its cross product with `rhs`.
    fn cross_assign(&mut self, rhs: &Vector4<T>)
        ensures
            final(self)@ == seq![cross4(old(self)@[0], rhs@[0])],
    {
        let out = (&*self).cross(rhs);
        *self = out;
    }
}

impl<T: Copy + Zero + Mul<T, Output = T> + Sub<T, Output = T>> CrossAssign<Vector4<T>> for Vector4<T> {
    open spec fn cross_assign_req(&self, rhs: Vector4<T>) -> bool {
        cross3_req(self@[0], rhs@[0])
    }

    fn cross_assign(&mut self, rhs: Vector4<T>)
        ensures
            final(self)@ == seq![cross4(old(self)@[0], rhs@[0])],
    {
        self.cross_assign(&rhs)
    }
}

} // verus!
