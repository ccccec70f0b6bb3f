//! The numbers the crate computes with.

use core::ops::Add;
use core::ops::Div;
use core::ops::Mul;
use core::ops::Sub;
use vstd::prelude::*;
use vstd::std_specs::convert::FromSpec;
use vstd::std_specs::ops::AddSpec;
use vstd::std_specs::ops::DivSpec;
use vstd::std_specs::ops::MulSpec;
use vstd::std_specs::ops::SubSpec;

verus! {

/// A number type: copyable, closed under `+ - * /`, and able to hold the small
/// integer constants of the integration scheme.
///
/// The trait adds nothing of its own and is implemented for every type that
/// has the operators.
pub trait Scalar: Copy + Add<Output = Self> + Sub<Output = Self> + Mul<Output = Self> + Div<
    Output = Self,
> + From<i8> {

}

impl<T> Scalar for T where
    T: Copy + Add<Output = T> + Sub<Output = T> + Mul<Output = T> + Div<Output = T> + From<i8>,
 {

}

/// The operators of `T` compute what their specifications say: `a + b` is
/// `a.add_spec(b)` whenever `a.add_req(b)` admits the operands, and likewise
/// for `-`, `*`, `/` and the conversion from `i8`.
pub open spec fn lawful<T: Scalar>() -> bool {
    &&& T::obeys_add_spec()
    &&& T::obeys_sub_spec()
    &&& T::obeys_mul_spec()
    &&& T::obeys_div_spec()
    &&& T::obeys_from_spec()
}

/// The scalar that stands for the small integer `n`.
pub open spec fn literal<T: Scalar>(n: i8) -> T {
    T::from_spec(n)
}

} // verus!
