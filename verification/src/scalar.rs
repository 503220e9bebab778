//! The numbers the pendulum is computed with.

use core::ops::Add;
use core::ops::Div;
use core::ops::Mul;
use core::ops::Neg;
use core::ops::Sub;
use vstd::prelude::*;
use vstd::std_specs::convert::FromSpec;
use vstd::std_specs::ops::AddSpec;
use vstd::std_specs::ops::DivSpec;
use vstd::std_specs::ops::MulSpec;
use vstd::std_specs::ops::NegSpec;
use vstd::std_specs::ops::SubSpec;

verus! {

/// A number type the pendulum can be computed with: the four arithmetic
/// operators, negation, conversion from small integers, and the two
/// trigonometric functions of an angle in radians.
///
/// Nothing is promised of `sin` and `cos`: the library takes whatever they
/// return and states its results in terms of those values.
pub trait Scalar: Copy + From<i8> + Add<Output = Self> + Sub<Output = Self> + Mul<
    Output = Self,
> + Div<Output = Self> + Neg<Output = Self> {
    /// Sine of the angle `self`.
    fn sin(self) -> Self;

    /// Cosine of the angle `self`.
    fn cos(self) -> Self;
}

/// Every operator of `T` may be applied to every operand. This holds of
/// number types that answer overflow and division by zero with a value of
/// their own instead of failing.
pub open spec fn total_arithmetic<T: Scalar>() -> bool {
    &&& forall|a: T, b: T| #[trigger] a.add_req(b)
    &&& forall|a: T, b: T| #[trigger] a.sub_req(b)
    &&& forall|a: T, b: T| #[trigger] a.mul_req(b)
    &&& forall|a: T, b: T| #[trigger] a.div_req(b)
    &&& forall|a: T| #[trigger] a.neg_req()
}

/// The operators of `T` and its conversion from `i8` return exactly what
/// their specifications say.
pub open spec fn exact_arithmetic<T: Scalar>() -> bool {
    &&& T::obeys_add_spec()
    &&& T::obeys_sub_spec()
    &&& T::obeys_mul_spec()
    &&& T::obeys_div_spec()
    &&& T::obeys_neg_spec()
    &&& <T as FromSpec<i8>>::obeys_from_spec()
}

/// `a + b`.
#[verifier::inline]
pub open spec fn sum<T: Scalar>(a: T, b: T) -> T {
    a.add_spec(b)
}

/// `a - b`.
#[verifier::inline]
pub open spec fn diff<T: Scalar>(a: T, b: T) -> T {
    a.sub_spec(b)
}

/// `a * b`.
#[verifier::inline]
pub open spec fn prod<T: Scalar>(a: T, b: T) -> T {
    a.mul_spec(b)
}

/// `a / b`.
#[verifier::inline]
pub open spec fn quot<T: Scalar>(a: T, b: T) -> T {
    a.div_spec(b)
}

/// `-a`.
#[verifier::inline]
pub open spec fn minus<T: Scalar>(a: T) -> T {
    a.neg_spec()
}

/// The scalar that stands for the integer `n`.
#[verifier::inline]
pub open spec fn lit<T: Scalar>(n: i8) -> T {
    <T as FromSpec<i8>>::from_spec(n)
}

/// `s` is a value that `T`'s sine may return for the angle `a`.
pub open spec fn is_sin<T: Scalar>(a: T, s: T) -> bool {
    call_ensures(T::sin, (a,), s)
}

/// `c` is a value that `T`'s cosine may return for the angle `a`.
pub open spec fn is_cos<T: Scalar>(a: T, c: T) -> bool {
    call_ensures(T::cos, (a,), c)
}

/// `T`'s sine and cosine each return one value per angle.
pub open spec fn single_valued_trig<T: Scalar>() -> bool {
    &&& forall|a: T, s: T, t: T| #[trigger] is_sin(a, s) && #[trigger] is_sin(a, t) ==> s == t
    &&& forall|a: T, c: T, d: T| #[trigger] is_cos(a, c) && #[trigger] is_cos(a, d) ==> c == d
}

} // verus!
