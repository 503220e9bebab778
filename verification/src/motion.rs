//! The formulas of the double pendulum, as functions of plain scalars.
//!
//! Angles are measured from the downward vertical and grow counter-clockwise;
//! the second coordinate of a position points up, so a hanging arm has a
//! negative one. Each executable function here takes the sines and cosines it
//! needs as arguments and is proved equal to its formula for every scalar
//! with exact operators.

use crate::point::Point;
use crate::scalar::diff;
use crate::scalar::exact_arithmetic;
use crate::scalar::is_cos;
use crate::scalar::is_sin;
use crate::scalar::lit;
use crate::scalar::minus;
use crate::scalar::prod;
use crate::scalar::quot;
use crate::scalar::sum;
use crate::scalar::total_arithmetic;
use crate::scalar::Scalar;
use core::ops::Neg;
use vstd::prelude::*;

verus! {

/// Sines and cosines of the two arm angles `a1` and `a2`, as the positions
/// need them.
#[derive(Debug, Clone, Copy)]
pub struct AngleTrig<T> {
    /// sin(a1)
    pub sin_first: T,
    /// cos(a1)
    pub cos_first: T,
    /// sin(a2)
    pub sin_second: T,
    /// cos(a2)
    pub cos_second: T,
}

/// Sines and cosines of the angle combinations that couple the two arms, as
/// the accelerations need them.
#[derive(Debug, Clone, Copy)]
pub struct CouplingTrig<T> {
    /// sin(a1)
    pub sin_first: T,
    /// cos(a1)
    pub cos_first: T,
    /// sin(a1 - a2)
    pub sin_gap: T,
    /// cos(a1 - a2)
    pub cos_gap: T,
    /// sin(a1 - 2*a2)
    pub sin_lag: T,
    /// cos(2*a1 - 2*a2)
    pub cos_twice_gap: T,
}

/// The gravitational constant, 1: a choice of units, not Earth's gravity.
pub open spec fn gravity_value<T: Scalar>() -> T {
    lit(1i8)
}

/// The length of one time step, 1/5.
pub open spec fn step_scale_value<T: Scalar>() -> T {
    quot(lit(1i8), lit(5i8))
}

/// a1 - a2
pub open spec fn gap<T: Scalar>(a1: T, a2: T) -> T {
    diff(a1, a2)
}

/// a1 - 2*a2
pub open spec fn lag<T: Scalar>(a1: T, a2: T) -> T {
    diff(a1, prod(lit(2i8), a2))
}

/// 2*a1 - 2*a2
pub open spec fn twice_gap<T: Scalar>(a1: T, a2: T) -> T {
    diff(prod(lit(2i8), a1), prod(lit(2i8), a2))
}

/// `trig` holds values that the scalar's sine and cosine may return for the
/// angles `a1` and `a2`.
pub open spec fn angles_sampled<T: Scalar>(a1: T, a2: T, trig: AngleTrig<T>) -> bool {
    &&& is_sin(a1, trig.sin_first)
    &&& is_cos(a1, trig.cos_first)
    &&& is_sin(a2, trig.sin_second)
    &&& is_cos(a2, trig.cos_second)
}

/// `trig` holds values that the scalar's sine and cosine may return for
/// `a1`, `a1 - a2`, `a1 - 2*a2` and `2*a1 - 2*a2`.
pub open spec fn coupling_sampled<T: Scalar>(a1: T, a2: T, trig: CouplingTrig<T>) -> bool {
    &&& is_sin(a1, trig.sin_first)
    &&& is_cos(a1, trig.cos_first)
    &&& is_sin(gap(a1, a2), trig.sin_gap)
    &&& is_cos(gap(a1, a2), trig.cos_gap)
    &&& is_sin(lag(a1, a2), trig.sin_lag)
    &&& is_cos(twice_gap(a1, a2), trig.cos_twice_gap)
}

/// Where the first arm ends: (l1 * sin(a1), -l1 * cos(a1)).
pub open spec fn joint_position<T: Scalar>(l1: T, trig: AngleTrig<T>) -> (T, T) {
    (prod(l1, trig.sin_first), prod(minus(l1), trig.cos_first))
}

/// Where the second arm ends: the joint displaced by
/// (l2 * sin(a2), -l2 * cos(a2)).
pub open spec fn end_position<T: Scalar>(l1: T, l2: T, trig: AngleTrig<T>) -> (T, T) {
    let joint = joint_position(l1, trig);
    (sum(joint.0, prod(l2, trig.sin_second)), diff(joint.1, prod(l2, trig.cos_second)))
}

/// The factor that both accelerations are divided by, next to the arm's
/// length: 2*m1 + m2 - m2*cos(2*a1 - 2*a2).
pub open spec fn inertia<T: Scalar>(m1: T, m2: T, trig: CouplingTrig<T>) -> T {
    diff(sum(prod(lit(2i8), m1), m2), prod(m2, trig.cos_twice_gap))
}

/// The numerator of the first arm's acceleration:
/// (-g)*(2*m1 + m2)*sin(a1) + (-m2)*g*sin(a1 - 2*a2)
///   + (-2)*sin(a1 - a2)*m2*(v2*v2*l2 + v1*v1*l1*cos(a1 - a2)).
pub open spec fn first_numerator<T: Scalar>(
    m1: T,
    m2: T,
    l1: T,
    l2: T,
    g: T,
    v1: T,
    v2: T,
    trig: CouplingTrig<T>,
) -> T {
    let own_weight = prod(prod(minus(g), sum(prod(lit(2i8), m1), m2)), trig.sin_first);
    let hung_weight = prod(prod(minus(m2), g), trig.sin_lag);
    let lever = prod(prod(minus(lit(2i8)), trig.sin_gap), m2);
    let spin = sum(prod(prod(v2, v2), l2), prod(prod(prod(v1, v1), l1), trig.cos_gap));
    sum(sum(own_weight, hung_weight), prod(lever, spin))
}

/// The numerator of the second arm's acceleration:
/// 2*sin(a1 - a2)*(v1*v1*l1*(m1 + m2) + g*(m1 + m2)*cos(a1)
///   + v2*v2*l2*m2*cos(a1 - a2)).
pub open spec fn second_numerator<T: Scalar>(
    m1: T,
    m2: T,
    l1: T,
    l2: T,
    g: T,
    v1: T,
    v2: T,
    trig: CouplingTrig<T>,
) -> T {
    let lever = prod(lit(2i8), trig.sin_gap);
    let first_spin = prod(prod(prod(v1, v1), l1), sum(m1, m2));
    let weight = prod(prod(g, sum(m1, m2)), trig.cos_first);
    let second_spin = prod(prod(prod(prod(v2, v2), l2), m2), trig.cos_gap);
    prod(lever, sum(sum(first_spin, weight), second_spin))
}

/// The angular acceleration of the first arm: its numerator divided by
/// l1 times the inertia factor. Nothing guards the division: where the
/// divisor is zero, the result is whatever the scalar's division gives.
pub open spec fn first_acceleration<T: Scalar>(
    m1: T,
    m2: T,
    l1: T,
    l2: T,
    g: T,
    v1: T,
    v2: T,
    trig: CouplingTrig<T>,
) -> T {
    quot(first_numerator(m1, m2, l1, l2, g, v1, v2, trig), prod(l1, inertia(m1, m2, trig)))
}

/// The angular acceleration of the second arm: its numerator divided by
/// l2 times the inertia factor, unguarded as the first.
pub open spec fn second_acceleration<T: Scalar>(
    m1: T,
    m2: T,
    l1: T,
    l2: T,
    g: T,
    v1: T,
    v2: T,
    trig: CouplingTrig<T>,
) -> T {
    quot(second_numerator(m1, m2, l1, l2, g, v1, v2, trig), prod(l2, inertia(m1, m2, trig)))
}

/// An angular velocity one step on: the acceleration's share of the step is
/// added first, then the sum is damped: (v + (1/5)*acc) * (1 - damp).
pub open spec fn next_velocity<T: Scalar>(v: T, acc: T, damp: T) -> T {
    prod(sum(v, prod(step_scale_value(), acc)), diff(lit(1i8), damp))
}

/// An angle one step on: a + v.
pub open spec fn next_angle<T: Scalar>(a: T, v: T) -> T {
    sum(a, v)
}

/// The gravitational constant.
pub fn gravity<T: Scalar>() -> (g: T)
    ensures
        exact_arithmetic::<T>() ==> g == gravity_value::<T>(),
{
    T::from(1i8)
}

/// The length of one time step. It is fixed: a pendulum cannot be advanced
/// by any other amount.
pub fn step_scale<T: Scalar>() -> (h: T)
    requires
        total_arithmetic::<T>(),
    ensures
        exact_arithmetic::<T>() ==> h == step_scale_value::<T>(),
{
    T::from(1i8) / T::from(5i8)
}

/// Asks the scalar for the sines and cosines of the two arm angles.
pub fn sample_angles<T: Scalar>(a1: T, a2: T) -> (trig: AngleTrig<T>)
    ensures
        angles_sampled(a1, a2, trig),
{
    AngleTrig {
        sin_first: a1.sin(),
        cos_first: a1.cos(),
        sin_second: a2.sin(),
        cos_second: a2.cos(),
    }
}

/// Asks the scalar for the sines and cosines that couple the arms at the
/// angles `a1` and `a2`.
pub fn sample_coupling<T: Scalar>(a1: T, a2: T) -> (trig: CouplingTrig<T>)
    requires
        total_arithmetic::<T>(),
    ensures
        exact_arithmetic::<T>() ==> coupling_sampled(a1, a2, trig),
{
    let two = T::from(2i8);
    let between = a1 - a2;
    CouplingTrig {
        sin_first: a1.sin(),
        cos_first: a1.cos(),
        sin_gap: between.sin(),
        cos_gap: between.cos(),
        sin_lag: (a1 - two * a2).sin(),
        cos_twice_gap: (two * a1 - two * a2).cos(),
    }
}

/// The positions of the joint and of the end, from the arm lengths and the
/// sines and cosines of the arm angles.
pub fn positions<T: Scalar>(l1: T, l2: T, trig: AngleTrig<T>) -> (at: (Point<T>, Point<T>))
    requires
        total_arithmetic::<T>(),
    ensures
        exact_arithmetic::<T>() ==> at.0@ == joint_position(l1, trig),
        exact_arithmetic::<T>() ==> at.1@ == end_position(l1, l2, trig),
{
    let joint_x = l1 * trig.sin_first;
    let joint_y = l1.neg() * trig.cos_first;
    let end_x = joint_x + l2 * trig.sin_second;
    let end_y = joint_y - l2 * trig.cos_second;
    (Point::new(joint_x, joint_y), Point::new(end_x, end_y))
}

/// The angular accelerations of the two arms, from the masses, lengths,
/// gravity, angular velocities and the coupling sines and cosines. The
/// inertia factor is computed once and divides both.
pub fn accelerations<T: Scalar>(
    m1: T,
    m2: T,
    l1: T,
    l2: T,
    g: T,
    v1: T,
    v2: T,
    trig: CouplingTrig<T>,
) -> (acc: (T, T))
    requires
        total_arithmetic::<T>(),
    ensures
        exact_arithmetic::<T>() ==> acc.0 == first_acceleration(m1, m2, l1, l2, g, v1, v2, trig),
        exact_arithmetic::<T>() ==> acc.1 == second_acceleration(m1, m2, l1, l2, g, v1, v2, trig),
{
    let two = T::from(2i8);
    let factor = two * m1 + m2 - m2 * trig.cos_twice_gap;

    let own_weight = g.neg() * (two * m1 + m2) * trig.sin_first;
    let hung_weight = m2.neg() * g * trig.sin_lag;
    let lever = two.neg() * trig.sin_gap * m2;
    let spin = v2 * v2 * l2 + v1 * v1 * l1 * trig.cos_gap;
    let first = (own_weight + hung_weight + lever * spin) / (l1 * factor);

    let lever = two * trig.sin_gap;
    let first_spin = v1 * v1 * l1 * (m1 + m2);
    let weight = g * (m1 + m2) * trig.cos_first;
    let second_spin = v2 * v2 * l2 * m2 * trig.cos_gap;
    let second = lever * (first_spin + weight + second_spin) / (l2 * factor);

    (first, second)
}

/// One angular velocity advanced by a step and damped.
pub fn advance_velocity<T: Scalar>(v: T, acc: T, damp: T) -> (next: T)
    requires
        total_arithmetic::<T>(),
    ensures
        exact_arithmetic::<T>() ==> next == next_velocity(v, acc, damp),
{
    let pushed = v + step_scale::<T>() * acc;
    pushed * (T::from(1i8) - damp)
}

/// One angle advanced by a step at the angular velocity `v`.
pub fn advance_angle<T: Scalar>(a: T, v: T) -> (next: T)
    requires
        total_arithmetic::<T>(),
    ensures
        exact_arithmetic::<T>() ==> next == next_angle(a, v),
{
    a + v
}

} // verus!
