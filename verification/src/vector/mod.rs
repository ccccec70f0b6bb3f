//! Three-component vectors.

mod add;
mod div;
mod mul;
mod sub;

use crate::scalar::lawful;
use crate::scalar::literal;
use crate::scalar::Scalar;
use vstd::prelude::*;
use vstd::std_specs::convert::FromSpec;
use vstd::std_specs::ops::AddSpec;
use vstd::std_specs::ops::MulSpec;
use vstd::std_specs::ops::SubSpec;

verus! {

/// A triple `(x, y, z)` of scalars, handled by value.
#[derive(Debug, Copy)]
pub struct Vector3<T> {
    pub x: T,
    pub y: T,
    pub z: T,
}

impl<T: Copy> Clone for Vector3<T> {
    fn clone(&self) -> (v: Self)
        ensures
            v == *self,
    {
        *self
    }
}

impl<T: Scalar> Vector3<T> {
    /// The vector whose three components are zero.
    pub open spec fn zeros_spec() -> Self {
        Vector3 { x: literal::<T>(0), y: literal::<T>(0), z: literal::<T>(0) }
    }

    /// The operands of every `*` and `+` in [`Self::dot_spec`] are admitted.
    pub open spec fn dot_req(self, v: Self) -> bool {
        &&& self.x.mul_req(v.x)
        &&& self.y.mul_req(v.y)
        &&& self.z.mul_req(v.z)
        &&& self.x.mul_spec(v.x).add_req(self.y.mul_spec(v.y))
        &&& self.x.mul_spec(v.x).add_spec(self.y.mul_spec(v.y)).add_req(self.z.mul_spec(v.z))
    }

    /// The inner product `x*x' + y*y' + z*z'`, summed from the left.
    pub open spec fn dot_spec(self, v: Self) -> T {
        self.x.mul_spec(v.x).add_spec(self.y.mul_spec(v.y)).add_spec(self.z.mul_spec(v.z))
    }

    /// The operands of every `*` and `+` in [`Self::length_sq_spec`] are
    /// admitted.
    pub open spec fn length_sq_req(self) -> bool {
        &&& self.x.mul_req(self.x)
        &&& self.y.mul_req(self.y)
        &&& self.z.mul_req(self.z)
        &&& self.x.mul_spec(self.x).add_req(self.y.mul_spec(self.y))
        &&& self.x.mul_spec(self.x).add_spec(self.y.mul_spec(self.y)).add_req(
            self.z.mul_spec(self.z),
        )
    }

    /// The squared length `x*x + y*y + z*z`, summed from the left.
    pub open spec fn length_sq_spec(self) -> T {
        self.x.mul_spec(self.x).add_spec(self.y.mul_spec(self.y)).add_spec(self.z.mul_spec(self.z))
    }

    /// The squared length of a vector is its inner product with itself, and
    /// the one is admitted exactly when the other is.
    pub proof fn lemma_length_sq_is_dot(self)
        ensures
            self.length_sq_req() == self.dot_req(self),
            self.length_sq_spec() == self.dot_spec(self),
    {
    }

    pub fn new(x: T, y: T, z: T) -> (v: Self)
        ensures
            v == (Vector3 { x, y, z }),
    {
        Self { x: x, y: y, z: z }
    }

    pub fn zeros() -> (v: Self)
        ensures
            T::obeys_from_spec() ==> v == Self::zeros_spec(),
    {
        Self::new(T::from(0i8), T::from(0i8), T::from(0i8))
    }

    pub fn dot(&self, v: &Vector3<T>) -> (r: T)
        requires
            lawful::<T>(),
            self.dot_req(*v),
        ensures
            r == self.dot_spec(*v),
    {
        self.x * v.x + self.y * v.y + self.z * v.z
    }

    pub fn length_sq(&self) -> (r: T)
        requires
            lawful::<T>(),
            self.length_sq_req(),
        ensures
            r == self.length_sq_spec(),
    {
        return self.x * self.x + self.y * self.y + self.z * self.z;
    }
}

/// The inner product of `v1` and `v2`.
pub fn dot<T: Scalar>(v1: &Vector3<T>, v2: &Vector3<T>) -> (r: T)
    requires
        lawful::<T>(),
        v1.dot_req(*v2),
    ensures
        r == v1.dot_spec(*v2),
{
    v1.x * v2.x + v1.y * v2.y + v1.z * v2.z
}

/// The operands of every operator in [`distance_sq_spec`] are admitted.
pub open spec fn distance_sq_req<T: Scalar>(v1: Vector3<T>, v2: Vector3<T>) -> bool {
    &&& v1.sub_req(v2)
    &&& v1.sub_spec(v2).length_sq_req()
}

/// The squared length of `v1 - v2`.
pub open spec fn distance_sq_spec<T: Scalar>(v1: Vector3<T>, v2: Vector3<T>) -> T {
    v1.sub_spec(v2).length_sq_spec()
}

/// The squared distance between `v1` and `v2`.
pub fn distance_sq<T: Scalar>(v1: &Vector3<T>, v2: &Vector3<T>) -> (r: T)
    requires
        lawful::<T>(),
        distance_sq_req(*v1, *v2),
    ensures
        r == distance_sq_spec(*v1, *v2),
{
    return (v1.x - v2.x) * (v1.x - v2.x) + (v1.y - v2.y) * (v1.y - v2.y) + (v1.z - v2.z) * (v1.z
        - v2.z);
}

/// The distance between `v1` and `v2`: `sqrt` applied to their squared
/// distance.
///
/// The scalar type has no square root of its own, so the caller brings one.
/// It is called once, on [`distance_sq_spec`], and its result is returned as
/// it is.
pub fn distance<T: Scalar, F: Fn(T) -> T>(v1: &Vector3<T>, v2: &Vector3<T>, sqrt: F) -> (r: T)
    requires
        lawful::<T>(),
        distance_sq_req(*v1, *v2),
        sqrt.requires((distance_sq_spec(*v1, *v2),)),
    ensures
        sqrt.ensures((distance_sq_spec(*v1, *v2),), r),
{
    return sqrt(distance_sq(v1, v2));
}

/// Each component of `v` may be multiplied by `s` from the left.
pub open spec fn scale_req<T: Scalar>(s: T, v: Vector3<T>) -> bool {
    &&& s.mul_req(v.x)
    &&& s.mul_req(v.y)
    &&& s.mul_req(v.z)
}

/// The vector `v` with each component multiplied by `s` from the left.
pub open spec fn scale_spec<T: Scalar>(s: T, v: Vector3<T>) -> Vector3<T> {
    Vector3 { x: s.mul_spec(v.x), y: s.mul_spec(v.y), z: s.mul_spec(v.z) }
}

/// The vector `v` with each component multiplied by `s` from the left: the
/// product `s * v`, for which the scalar types have no operator.
pub fn scale<T: Scalar>(s: T, v: &Vector3<T>) -> (r: Vector3<T>)
    requires
        lawful::<T>(),
        scale_req(s, *v),
    ensures
        r == scale_spec(s, *v),
{
    Vector3 { x: s * v.x, y: s * v.y, z: s * v.z }
}

impl<T: Scalar> Default for Vector3<T> {
    fn default() -> (v: Self)
        ensures
            T::obeys_from_spec() ==> v == Self::zeros_spec(),
    {
        Self::zeros()
    }
}

} // verus!
