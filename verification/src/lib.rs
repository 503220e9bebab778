//! A planar double pendulum advanced in discrete time steps.
//!
//! Two rigid arms hang in series from a fixed pivot, each with a point mass
//! at its end, under gravity. A [`DoublePendulum`] keeps the masses, the arm
//! lengths and a damping factor, and the angles, angular velocities and
//! angular accelerations of the two arms. Each call of
//! [`DoublePendulum::new_pos`] advances it by one fixed time step;
//! [`DoublePendulum::get_joint`] and [`DoublePendulum::get_end`] then give
//! the positions of the two masses as [`Point`]s.
//!
//! The library is generic over the number type, a [`Scalar`]. Its functions
//! ask that the scalar's operators can be applied to all operands
//! ([`scalar::total_arithmetic`]), as those of floating-point numbers can,
//! and never fail themselves. What they compute is proved equal to the
//! formulas of [`motion`] for every scalar whose operators return what their
//! `*_spec` functions say ([`scalar::exact_arithmetic`]). The sines and
//! cosines are taken from the scalar as they come: results are stated in
//! terms of the values that [`Scalar::sin`] and [`Scalar::cos`] returned.
//!
//! [`laws`] holds what follows for whole runs: the parameters never change,
//! the positions always belong to the angles, and equal parameters give equal
//! trajectories.

pub mod laws;
pub mod motion;
pub mod pendulum;
pub mod point;
pub mod scalar;

pub use pendulum::DoublePendulum;
pub use point::Point;
pub use scalar::Scalar;
