//! The pendulum itself: its fixed parameters, its state, and the step that
//! advances it.

use crate::motion::accelerations;
use crate::motion::advance_angle;
use crate::motion::advance_velocity;
use crate::motion::angles_sampled;
use crate::motion::coupling_sampled;
use crate::motion::end_position;
use crate::motion::first_acceleration;
use crate::motion::gravity;
use crate::motion::gravity_value;
use crate::motion::joint_position;
use crate::motion::next_angle;
use crate::motion::next_velocity;
use crate::motion::positions;
use crate::motion::sample_angles;
use crate::motion::sample_coupling;
use crate::motion::second_acceleration;
use crate::motion::AngleTrig;
use crate::motion::CouplingTrig;
use crate::point::Point;
use crate::scalar::exact_arithmetic;
use crate::scalar::lit;
use crate::scalar::total_arithmetic;
use crate::scalar::Scalar;
use vstd::prelude::*;

verus! {

/// What a pendulum is at one moment: the model its contracts speak of.
pub struct State<T> {
    /// Mass at the end of the first arm.
    pub m1: T,
    /// Mass at the end of the second arm.
    pub m2: T,
    /// Angle of the first arm from the downward vertical, in radians.
    pub a1: T,
    /// Angle of the second arm from the downward vertical, in radians.
    pub a2: T,
    /// Length of the first arm.
    pub l1: T,
    /// Length of the second arm.
    pub l2: T,
    /// Position of the joint, where the first arm ends.
    pub c1: (T, T),
    /// Position of the end, where the second arm ends.
    pub c2: (T, T),
    /// Angular velocity of the first arm.
    pub v1: T,
    /// Angular velocity of the second arm.
    pub v2: T,
    /// Angular acceleration of the first arm.
    pub acc1: T,
    /// Angular acceleration of the second arm.
    pub acc2: T,
    /// Gravitational constant.
    pub g: T,
    /// Share of each angular velocity that is lost at every step.
    pub damp_factor: T,
}

impl<T: Scalar> State<T> {
    /// The state a pendulum is built in: the parameters as given, at rest,
    /// with unit gravity, and the positions that belong to the angles.
    pub open spec fn initial(
        m1: T,
        m2: T,
        a1: T,
        a2: T,
        l1: T,
        l2: T,
        damp_factor: T,
        trig: AngleTrig<T>,
    ) -> Self {
        State {
            m1,
            m2,
            a1,
            a2,
            l1,
            l2,
            c1: joint_position(l1, trig),
            c2: end_position(l1, l2, trig),
            v1: lit(0i8),
            v2: lit(0i8),
            acc1: lit(0i8),
            acc2: lit(0i8),
            g: gravity_value(),
            damp_factor,
        }
    }

    /// Both angular velocities pushed by the accelerations that are stored,
    /// then damped.
    pub open spec fn with_next_velocities(self) -> Self {
        State {
            v1: next_velocity(self.v1, self.acc1, self.damp_factor),
            v2: next_velocity(self.v2, self.acc2, self.damp_factor),
            ..self
        }
    }

    /// Both accelerations computed afresh from the angles and angular
    /// velocities that are stored.
    pub open spec fn with_new_accelerations(self, trig: CouplingTrig<T>) -> Self {
        State {
            acc1: first_acceleration(
                self.m1,
                self.m2,
                self.l1,
                self.l2,
                self.g,
                self.v1,
                self.v2,
                trig,
            ),
            acc2: second_acceleration(
                self.m1,
                self.m2,
                self.l1,
                self.l2,
                self.g,
                self.v1,
                self.v2,
                trig,
            ),
            ..self
        }
    }

    /// Both angles moved on by the angular velocities that are stored.
    pub open spec fn with_next_angles(self) -> Self {
        State { a1: next_angle(self.a1, self.v1), a2: next_angle(self.a2, self.v2), ..self }
    }

    /// Both positions computed afresh from the arm lengths.
    pub open spec fn with_new_positions(self, trig: AngleTrig<T>) -> Self {
        State {
            c1: joint_position(self.l1, trig),
            c2: end_position(self.l1, self.l2, trig),
            ..self
        }
    }

    /// The masses, lengths, gravity and damping of `self` are those of
    /// `other`.
    pub open spec fn same_parameters(self, other: Self) -> bool {
        &&& self.m1 == other.m1
        &&& self.m2 == other.m2
        &&& self.l1 == other.l1
        &&& self.l2 == other.l2
        &&& self.g == other.g
        &&& self.damp_factor == other.damp_factor
    }

    /// The positions are those that belong to the angles: there are sines
    /// and cosines of the two angles that give them.
    pub open spec fn positioned(self) -> bool {
        exists|trig: AngleTrig<T>|
            {
                &&& #[trigger] angles_sampled(self.a1, self.a2, trig)
                &&& self.c1 == joint_position(self.l1, trig)
                &&& self.c2 == end_position(self.l1, self.l2, trig)
            }
    }

    /// `self` is a state that a pendulum may be built in from these seven
    /// parameters.
    pub open spec fn built_from(
        self,
        m1: T,
        m2: T,
        a1: T,
        a2: T,
        l1: T,
        l2: T,
        damp_factor: T,
    ) -> bool {
        exists|trig: AngleTrig<T>|
            {
                &&& #[trigger] angles_sampled(a1, a2, trig)
                &&& self == Self::initial(m1, m2, a1, a2, l1, l2, damp_factor, trig)
            }
    }

    /// One step leads from `self` to `next`. The order is fixed: first the
    /// angular velocities, from the accelerations of the step before; then
    /// the accelerations, at the old angles and the new angular velocities;
    /// then the angles, by the new angular velocities; last the positions,
    /// at the new angles.
    pub open spec fn steps_to(self, next: Self) -> bool {
        exists|coupling: CouplingTrig<T>, angles: AngleTrig<T>| #[trigger]
            self.steps_through(coupling, angles, next)
    }

    /// One step leads from `self` to `next`, and `coupling` and `angles` are
    /// the sines and cosines that the scalar returned on the way: `coupling`
    /// at the old angles, `angles` at the new ones.
    pub open spec fn steps_through(
        self,
        coupling: CouplingTrig<T>,
        angles: AngleTrig<T>,
        next: Self,
    ) -> bool {
        &&& coupling_sampled(self.a1, self.a2, coupling)
        &&& angles_sampled(next.a1, next.a2, angles)
        &&& next == self.step_with(coupling, angles)
    }

    /// The state after one step from `self`, given the sines and cosines
    /// that the step asks for.
    pub open spec fn step_with(self, coupling: CouplingTrig<T>, angles: AngleTrig<T>) -> Self {
        self.with_next_velocities().with_new_accelerations(
            coupling,
        ).with_next_angles().with_new_positions(angles)
    }
}

/// A double pendulum: two arms in series, each with a point mass at its end,
/// under gravity, with angular velocities that are damped at every step.
#[derive(Debug, Clone, Copy, PartialEq)]
pub struct DoublePendulum<T> {
    m1: T,
    m2: T,
    a1: T,
    a2: T,
    l1: T,
    l2: T,
    c1: Point<T>,
    c2: Point<T>,
    v1: T,
    v2: T,
    acc1: T,
    acc2: T,
    g: T,
    damp_factor: T,
}

impl<T> View for DoublePendulum<T> {
    type V = State<T>;

    closed spec fn view(&self) -> State<T> {
        State {
            m1: self.m1,
            m2: self.m2,
            a1: self.a1,
            a2: self.a2,
            l1: self.l1,
            l2: self.l2,
            c1: self.c1@,
            c2: self.c2@,
            v1: self.v1,
            v2: self.v2,
            acc1: self.acc1,
            acc2: self.acc2,
            g: self.g,
            damp_factor: self.damp_factor,
        }
    }
}

impl<T: Scalar> DoublePendulum<T> {
    /// A copy of the joint's position.
    pub fn get_joint(&self) -> (joint: Point<T>)
        ensures
            joint@ == self@.c1,
    {
        Point::new(self.c1.x(), self.c1.y())
    }

    /// A copy of the end's position.
    pub fn get_end(&self) -> (end: Point<T>)
        ensures
            end@ == self@.c2,
    {
        Point::new(self.c2.x(), self.c2.y())
    }

    /// Sets both positions to those that belong to the angles.
    fn calc_pos(&mut self)
        requires
            total_arithmetic::<T>(),
        ensures
            final(self)@ == (State { c1: final(self)@.c1, c2: final(self)@.c2, ..old(self)@ }),
            exact_arithmetic::<T>() ==> exists|trig: AngleTrig<T>|
                {
                    &&& #[trigger] angles_sampled(old(self)@.a1, old(self)@.a2, trig)
                    &&& final(self)@ == old(self)@.with_new_positions(trig)
                },
    {
        let trig = sample_angles(self.a1, self.a2);
        let at = positions(self.l1, self.l2, trig);
        self.c1 = at.0;
        self.c2 = at.1;
    }

    /// Sets both accelerations to those that belong to the angles and
    /// angular velocities.
    fn new_acc(&mut self)
        requires
            total_arithmetic::<T>(),
        ensures
            final(self)@ == (State {
                acc1: final(self)@.acc1,
                acc2: final(self)@.acc2,
                ..old(self)@
            }),
            exact_arithmetic::<T>() ==> exists|trig: CouplingTrig<T>|
                {
                    &&& #[trigger] coupling_sampled(old(self)@.a1, old(self)@.a2, trig)
                    &&& final(self)@ == old(self)@.with_new_accelerations(trig)
                },
    {
        let trig = sample_coupling(self.a1, self.a2);
        let acc = accelerations(
            self.m1,
            self.m2,
            self.l1,
            self.l2,
            self.g,
            self.v1,
            self.v2,
            trig,
        );
        self.acc1 = acc.0;
        self.acc2 = acc.1;
    }

    /// Moves both angles on by their angular velocities.
    fn new_angle(&mut self)
        requires
            total_arithmetic::<T>(),
        ensures
            final(self)@ == (State { a1: final(self)@.a1, a2: final(self)@.a2, ..old(self)@ }),
            exact_arithmetic::<T>() ==> final(self)@ == old(self)@.with_next_angles(),
    {
        self.a1 = advance_angle(self.a1, self.v1);
        self.a2 = advance_angle(self.a2, self.v2);
    }

    /// Pushes both angular velocities by the stored accelerations and damps
    /// them.
    fn new_vel(&mut self)
        requires
            total_arithmetic::<T>(),
        ensures
            final(self)@ == (State { v1: final(self)@.v1, v2: final(self)@.v2, ..old(self)@ }),
            exact_arithmetic::<T>() ==> final(self)@ == old(self)@.with_next_velocities(),
    {
        self.v1 = advance_velocity(self.v1, self.acc1, self.damp_factor);
        self.v2 = advance_velocity(self.v2, self.acc2, self.damp_factor);
    }

    /// Advances the pendulum by one step. The masses, lengths, gravity and
    /// damping stay as they are; everything else moves on as `steps_to`
    /// says, and the positions are those of the new angles.
    pub fn new_pos(&mut self)
        requires
            total_arithmetic::<T>(),
        ensures
            final(self)@.same_parameters(old(self)@),
            exact_arithmetic::<T>() ==> old(self)@.steps_to(final(self)@),
            exact_arithmetic::<T>() ==> final(self)@.positioned(),
    {
        self.new_vel();
        let ghost pushed = self@;
        self.new_acc();
        let ghost driven = self@;
        self.new_angle();
        let ghost turned = self@;
        self.calc_pos();
        proof {
            if exact_arithmetic::<T>() {
                let coupling = choose|trig: CouplingTrig<T>|
                    {
                        &&& #[trigger] coupling_sampled(pushed.a1, pushed.a2, trig)
                        &&& driven == pushed.with_new_accelerations(trig)
                    };
                let angles = choose|trig: AngleTrig<T>|
                    {
                        &&& #[trigger] angles_sampled(turned.a1, turned.a2, trig)
                        &&& self@ == turned.with_new_positions(trig)
                    };
                assert(angles_sampled(self@.a1, self@.a2, angles));
                assert(old(self)@.steps_through(coupling, angles, self@));
            }
        }
    }

    /// A pendulum at rest at the angles `a1` and `a2`, with the masses `m1`
    /// and `m2`, the arm lengths `l1` and `l2` and the damping
    /// `damp_factor`, under unit gravity. No parameter is checked: each is
    /// kept as given.
    pub fn new(m1: T, m2: T, a1: T, a2: T, l1: T, l2: T, damp_factor: T) -> (pendulum: Self)
        requires
            total_arithmetic::<T>(),
        ensures
            pendulum@.m1 == m1,
            pendulum@.m2 == m2,
            pendulum@.a1 == a1,
            pendulum@.a2 == a2,
            pendulum@.l1 == l1,
            pendulum@.l2 == l2,
            pendulum@.damp_factor == damp_factor,
            exact_arithmetic::<T>() ==> pendulum@.built_from(m1, m2, a1, a2, l1, l2, damp_factor),
            exact_arithmetic::<T>() ==> pendulum@.positioned(),
    {
        let zero = T::from(0i8);
        let mut pendulum = DoublePendulum {
            m1,
            m2,
            a1,
            a2,
            l1,
            l2,
            c1: Point::new(zero, zero),
            c2: Point::new(zero, zero),
            v1: zero,
            v2: zero,
            acc1: zero,
            acc2: zero,
            g: gravity(),
            damp_factor,
        };
        pendulum.calc_pos();
        pendulum
    }

    /// Mass at the end of the first arm.
    pub fn m1(&self) -> (m1: T)
        ensures
            m1 == self@.m1,
    {
        self.m1
    }

    /// Mass at the end of the second arm.
    pub fn m2(&self) -> (m2: T)
        ensures
            m2 == self@.m2,
    {
        self.m2
    }

    /// Length of the first arm.
    pub fn l1(&self) -> (l1: T)
        ensures
            l1 == self@.l1,
    {
        self.l1
    }

    /// Length of the second arm.
    pub fn l2(&self) -> (l2: T)
        ensures
            l2 == self@.l2,
    {
        self.l2
    }
}

} // verus!
