//! Fixed-step fourth-order Runge-Kutta integration of a point mass in a
//! uniform field, with the three-component vector arithmetic it rests on.
//!
//! Every type is generic over its [`scalar::Scalar`]: any copyable number type
//! with the four arithmetic operators. Contracts are stated over the operator
//! specifications of the scalar type, so they bind for every scalar whose
//! operators are [`scalar::lawful`]. The signed machine integers from `i16`
//! up are. The IEEE floating-point types compile and run, but their operators
//! are left unspecified, because the bits of a NaN result are not determined:
//! nothing is proved of a computation on them.
//!
//! [`integer`] holds what follows for `i64`, where the arithmetic is exact:
//! the algebra of the vectors, and the exactness of the scheme under constant
//! acceleration.

pub mod integer;
pub mod particles;
pub mod rk4th;
pub mod scalar;
pub mod vector;
