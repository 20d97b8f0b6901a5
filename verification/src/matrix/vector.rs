//! What vectors offer beyond matrices: the dot product and named components.

use crate::matrix::inner::Vector;
use crate::matrix::inner::Vector2;
use crate::matrix::inner::Vector3;
use crate::matrix::inner::Vector4;
use std::ops::Add;
use std::ops::Mul;
use vstd::prelude::*;
use vstd::std_specs::ops::AddSpec;
use vstd::std_specs::ops::MulSpec;

verus! {

/// A vector that can be scaled to length one, into a new vector.
pub trait Normalize {
    type Output;

    fn normalize(self) -> Self::Output;
}

/// A vector that can be scaled to length one in place.
pub trait NormalizeAssign {
    fn normalize_assign(&mut self);
}

/// A value with a dot product.
pub trait Dot<Rhs = Self>: Sized {
    type Output;

    /// Whether the dot product with `rhs` can be taken.
    spec fn dot_req(self, rhs: Rhs) -> bool;

    fn dot(self, rhs: Rhs) -> (out: Self::Output)
        requires
            self.dot_req(rhs),
    ;
}

/// `seed` with the products `a[k] * b[k]` for `k` below `n` added to it, in
/// ascending order of `k`.
pub open spec fn dot_from<T: Mul<T, Output = T> + Add<T, Output = T>>(
    seed: T,
    a: Seq<T>,
    b: Seq<T>,
    n: nat,
) -> T
    decreases n,
{
    if n == 0 {
        seed
    } else {
        dot_from(seed, a, b, (n - 1) as nat).add_spec(a[n - 1].mul_spec(b[n - 1]))
    }
}

/// The scalar accepts every product and every addition that `dot_from` takes.
pub open spec fn dot_from_req<T: Mul<T, Output = T> + Add<T, Output = T>>(
    seed: T,
    a: Seq<T>,
    b: Seq<T>,
    n: nat,
) -> bool
    decreases n,
{
    n > 0 ==> {
        &&& dot_from_req(seed, a, b, (n - 1) as nat)
        &&& a[n - 1].mul_req(b[n - 1])
        &&& dot_from(seed, a, b, (n - 1) as nat).add_req(a[n - 1].mul_spec(b[n - 1]))
    }
}

/// The scalar's operators are what their specifications say, and whatever
/// default value the sum starts from, the scalar accepts every operation of
/// the dot product of `a` and `b`.
pub open spec fn vec_dot_req<T: Default + Mul<T, Output = T> + Add<T, Output = T>>(
    a: Seq<T>,
    b: Seq<T>,
) -> bool {
    &&& T::obeys_mul_spec() && T::obeys_add_spec()
    &&& forall|seed: T| #[trigger]
        call_ensures(T::default, (), seed) ==> dot_from_req(seed, a, b, a.len())
}

/// `out` is the dot product of `a` and `b`: a default value of the scalar
/// with the products of the components added to it, in ascending order.
pub open spec fn is_vec_dot<T: Default + Mul<T, Output = T> + Add<T, Output = T>>(
    a: Seq<T>,
    b: Seq<T>,
    out: T,
) -> bool {
    exists|seed: T| #[trigger]
        call_ensures(T::default, (), seed) && out == dot_from(seed, a, b, a.len())
}

/// What `dot_from_req` asks up to `n` it asks up to every `k` below `n`.
pub proof fn lemma_dot_from_req_prefix<T: Mul<T, Output = T> + Add<T, Output = T>>(
    seed: T,
    a: Seq<T>,
    b: Seq<T>,
    n: nat,
    k: nat,
)
    requires
        dot_from_req(seed, a, b, n),
        k <= n,
    ensures
        dot_from_req(seed, a, b, k),
    decreases n,
{
    if k < n {
        lemma_dot_from_req_prefix(seed, a, b, (n - 1) as nat, k);
    }
}

impl<const C: usize, T: Copy + Default + Mul<T, Output = T> + Add<T, Output = T>> Dot<&Vector<C, T>> for &Vector<C, T> {
    type Output = T;

    open spec fn dot_req(self, rhs: &Vector<C, T>) -> bool {
        vec_dot_req(self@[0], rhs@[0])
    }

    /// The dot product of two vectors. The other three forms come here.
    fn dot(self, rhs: &Vector<C, T>) -> (out: T)
        ensures
            is_vec_dot(self@[0], rhs@[0], out),
    {
        let seed = T::default();
        let mut out = seed;
        let mut c: usize = 0;
        while c < C
            invariant
                c <= C,
                T::obeys_mul_spec(),
                T::obeys_add_spec(),
                dot_from_req(seed, self@[0], rhs@[0], C as nat),
                out == dot_from(seed, self@[0], rhs@[0], c as nat),
            decreases C - c,
        {
            proof {
                lemma_dot_from_req_prefix(seed, self@[0], rhs@[0], C as nat, (c + 1) as nat);
            }
            out = out + self.elements[0][c] * rhs.elements[0][c];
            c += 1;
        }
        out
    }
}

impl<const C: usize, T: Copy + Default + Mul<T, Output = T> + Add<T, Output = T>> Dot<Vector<C, T>> for Vector<C, T> {
    type Output = T;

    open spec fn dot_req(self, rhs: Vector<C, T>) -> bool {
        vec_dot_req(self@[0], rhs@[0])
    }

    fn dot(self, rhs: Vector<C, T>) -> (out: T)
        ensures
            is_vec_dot(self@[0], rhs@[0], out),
    {
        (&self).dot(&rhs)
    }
}

impl<const C: usize, T: Copy + Default + Mul<T, Output = T> + Add<T, Output = T>> Dot<&Vector<C, T>> for Vector<C, T> {
    type Output = T;

    open spec fn dot_req(self, rhs: &Vector<C, T>) -> bool {
        vec_dot_req(self@[0], rhs@[0])
    }

    fn dot(self, rhs: &Vector<C, T>) -> (out: T)
        ensures
            is_vec_dot(self@[0], rhs@[0], out),
    {
        (&self).dot(rhs)
    }
}

impl<const C: usize, T: Copy + Default + Mul<T, Output = T> + Add<T, Output = T>> Dot<Vector<C, T>> for &Vector<C, T> {
    type Output = T;

    open spec fn dot_req(self, rhs: Vector<C, T>) -> bool {
        vec_dot_req(self@[0], rhs@[0])
    }

    fn dot(self, rhs: Vector<C, T>) -> (out: T)
        ensures
            is_vec_dot(self@[0], rhs@[0], out),
    {
        self.dot(&rhs)
    }
}

/// A vector with a first component, by value.
pub trait X<T> {
    fn x(&self) -> T;
}

/// A vector with a first component, by reference.
pub trait XRef<T> {
    fn x_ref(&self) -> &T;
}

/// A vector with a first component, by mutable reference.
pub trait XMut<T> {
    fn x_mut(&mut self) -> &mut T;
}

/// A vector with a second component, by value.
pub trait Y<T> {
    fn y(&self) -> T;
}

/// A vector with a second component, by reference.
pub trait YRef<T> {
    fn y_ref(&self) -> &T;
}

/// A vector with a second component, by mutable reference.
pub trait YMut<T> {
    fn y_mut(&mut self) -> &mut T;
}

/// A vector with a third component, by value.
pub trait Z<T> {
    fn z(&self) -> T;
}

/// A vector with a third component, by reference.
pub trait ZRef<T> {
    fn z_ref(&self) -> &T;
}

/// A vector with a third component, by mutable reference.
pub trait ZMut<T> {
    fn z_mut(&mut self) -> &mut T;
}

/// A vector with a fourth component, by value.
pub trait W<T> {
    fn w(&self) -> T;
}

/// A vector with a fourth component, by reference.
pub trait WRef<T> {
    fn w_ref(&self) -> &T;
}

/// A vector with a fourth component, by mutable reference.
pub trait WMut<T> {
    fn w_mut(&mut self) -> &mut T;
}

impl<T: Copy> X<T> for Vector2<T> {
    fn x(&self) -> (v: T)
        ensures
            v == self@[0][0],
    {
        self.elements[0][0]
    }
}

impl<T> XRef<T> for Vector2<T> {
    fn x_ref(&self) -> (v: &T)
        ensures
            *v == self@[0][0],
    {
        &self.elements[0][0]
    }
}

impl<T> XMut<T> for Vector2<T> {
    fn x_mut(&mut self) -> (v: &mut T)
        ensures
            *v == old(self)@[0][0],
            final(self)@ == seq![old(self)@[0].update(0, *final(v))],
    {
        &mut self.elements[0][0]
    }
}

impl<T: Copy> X<T> for Vector3<T> {
    fn x(&self) -> (v: T)
        ensures
            v == self@[0][0],
    {
        self.elements[0][0]
    }
}

impl<T> XRef<T> for Vector3<T> {
    fn x_ref(&self) -> (v: &T)
        ensures
            *v == self@[0][0],
    {
        &self.elements[0][0]
    }
}

impl<T> XMut<T> for Vector3<T> {
    fn x_mut(&mut self) -> (v: &mut T)
        ensures
            *v == old(self)@[0][0],
            final(self)@ == seq![old(self)@[0].update(0, *final(v))],
    {
        &mut self.elements[0][0]
    }
}

impl<T: Copy> X<T> for Vector4<T> {
    fn x(&self) -> (v: T)
        ensures
            v == self@[0][0],
    {
        self.elements[0][0]
    }
}

impl<T> XRef<T> for Vector4<T> {
    fn x_ref(&self) -> (v: &T)
        ensures
            *v == self@[0][0],
    {
        &self.elements[0][0]
    }
}

impl<T> XMut<T> for Vector4<T> {
    fn x_mut(&mut self) -> (v: &mut T)
        ensures
            *v == old(self)@[0][0],
            final(self)@ == seq![old(self)@[0].update(0, *final(v))],
    {
        &mut self.elements[0][0]
    }
}

impl<T: Copy> Y<T> for Vector2<T> {
    fn y(&self) -> (v: T)
        ensures
            v == self@[0][1],
    {
        self.elements[0][1]
    }
}

impl<T> YRef<T> for Vector2<T> {
    fn y_ref(&self) -> (v: &T)
        ensures
            *v == self@[0][1],
    {
        &self.elements[0][1]
    }
}

impl<T> YMut<T> for Vector2<T> {
    fn y_mut(&mut self) -> (v: &mut T)
        ensures
            *v == old(self)@[0][1],
            final(self)@ == seq![old(self)@[0].update(1, *final(v))],
    {
        &mut self.elements[0][1]
    }
}

impl<T: Copy> Y<T> for Vector3<T> {
    fn y(&self) -> (v: T)
        ensures
            v == self@[0][1],
    {
        self.elements[0][1]
    }
}

impl<T> YRef<T> for Vector3<T> {
    fn y_ref(&self) -> (v: &T)
        ensures
            *v == self@[0][1],
    {
        &self.elements[0][1]
    }
}

impl<T> YMut<T> for Vector3<T> {
    fn y_mut(&mut self) -> (v: &mut T)
        ensures
            *v == old(self)@[0][1],
            final(self)@ == seq![old(self)@[0].update(1, *final(v))],
    {
        &mut self.elements[0][1]
    }
}

impl<T: Copy> Y<T> for Vector4<T> {
    fn y(&self) -> (v: T)
        ensures
            v == self@[0][1],
    {
        self.elements[0][1]
    }
}

impl<T> YRef<T> for Vector4<T> {
    fn y_ref(&self) -> (v: &T)
        ensures
            *v == self@[0][1],
    {
        &self.elements[0][1]
    }
}

impl<T> YMut<T> for Vector4<T> {
    fn y_mut(&mut self) -> (v: &mut T)
        ensures
            *v == old(self)@[0][1],
            final(self)@ == seq![old(self)@[0].update(1, *final(v))],
    {
        &mut self.elements[0][1]
    }
}

impl<T: Copy> Z<T> for Vector3<T> {
    fn z(&self) -> (v: T)
        ensures
            v == self@[0][2],
    {
        self.elements[0][2]
    }
}

impl<T> ZRef<T> for Vector3<T> {
    fn z_ref(&self) -> (v: &T)
        ensures
            *v == self@[0][2],
    {
        &self.elements[0][2]
    }
}

impl<T> ZMut<T> for Vector3<T> {
    fn z_mut(&mut self) -> (v: &mut T)
        ensures
            *v == old(self)@[0][2],
            final(self)@ == seq![old(self)@[0].update(2, *final(v))],
    {
        &mut self.elements[0][2]
    }
}

impl<T: Copy> Z<T> for Vector4<T> {
    fn z(&self) -> (v: T)
        ensures
            v == self@[0][2],
    {
        self.elements[0][2]
    }
}

impl<T> ZRef<T> for Vector4<T> {
    fn z_ref(&self) -> (v: &T)
        ensures
            *v == self@[0][2],
    {
        &self.elements[0][2]
    }
}

impl<T> ZMut<T> for Vector4<T> {
    fn z_mut(&mut self) -> (v: &mut T)
        ensures
            *v == old(self)@[0][2],
            final(self)@ == seq![old(self)@[0].update(2, *final(v))],
    {
        &mut self.elements[0][2]
    }
}

impl<T: Copy> W<T> for Vector4<T> {
    fn w(&self) -> (v: T)
        ensures
            v == self@[0][3],
    {
        self.elements[0][3]
    }
}

impl<T> WRef<T> for Vector4<T> {
    fn w_ref(&self) -> (v: &T)
        ensures
            *v == self@[0][3],
    {
        &self.elements[0][3]
    }
}

impl<T> WMut<T> for Vector4<T> {
    fn w_mut(&mut self) -> (v: &mut T)
        ensures
            *v == old(self)@[0][3],
            final(self)@ == seq![old(self)@[0].update(3, *final(v))],
    {
        &mut self.elements[0][3]
    }
}

} // verus!
