//! What holds of every pendulum, whatever its parameters and however long it
//! runs.

use crate::motion::angles_sampled;
use crate::motion::coupling_sampled;
use crate::motion::AngleTrig;
use crate::motion::CouplingTrig;
use crate::pendulum::State;
use crate::scalar::single_valued_trig;
use crate::scalar::Scalar;
use vstd::prelude::*;

verus! {

/// `states` is a trajectory: each state but the last is followed by a state
/// that one step leads to.
pub open spec fn is_trajectory<T: Scalar>(states: Seq<State<T>>) -> bool {
    forall|i: int| 0 <= i < states.len() - 1 ==> (#[trigger] states[i]).steps_to(states[i + 1])
}

/// The sines and cosines of two angles are fixed by the angles, where the
/// scalar's sine and cosine are single-valued.
pub proof fn angle_samples_agree<T: Scalar>(a1: T, a2: T, first: AngleTrig<T>, second: AngleTrig<T>)
    requires
        single_valued_trig::<T>(),
        angles_sampled(a1, a2, first),
        angles_sampled(a1, a2, second),
    ensures
        first == second,
{
}

/// The coupling sines and cosines are fixed by the angles, where the
/// scalar's sine and cosine are single-valued.
pub proof fn coupling_samples_agree<T: Scalar>(
    a1: T,
    a2: T,
    first: CouplingTrig<T>,
    second: CouplingTrig<T>,
)
    requires
        single_valued_trig::<T>(),
        coupling_sampled(a1, a2, first),
        coupling_sampled(a1, a2, second),
    ensures
        first == second,
{
}

/// A pendulum is built with the positions that belong to its angles: the
/// origin it starts from never shows.
pub proof fn built_pendulum_is_positioned<T: Scalar>(
    built: State<T>,
    m1: T,
    m2: T,
    a1: T,
    a2: T,
    l1: T,
    l2: T,
    damp_factor: T,
)
    requires
        built.built_from(m1, m2, a1, a2, l1, l2, damp_factor),
    ensures
        built.positioned(),
        built.a1 == a1,
        built.a2 == a2,
        built.l1 == l1,
        built.l2 == l2,
{
    let trig = choose|trig: AngleTrig<T>|
        {
            &&& #[trigger] angles_sampled(a1, a2, trig)
            &&& built == State::initial(m1, m2, a1, a2, l1, l2, damp_factor, trig)
        };
    assert(angles_sampled(built.a1, built.a2, trig));
}

/// The same seven parameters build the same pendulum, where the scalar's
/// sine and cosine are single-valued.
pub proof fn construction_is_deterministic<T: Scalar>(
    first: State<T>,
    second: State<T>,
    m1: T,
    m2: T,
    a1: T,
    a2: T,
    l1: T,
    l2: T,
    damp_factor: T,
)
    requires
        single_valued_trig::<T>(),
        first.built_from(m1, m2, a1, a2, l1, l2, damp_factor),
        second.built_from(m1, m2, a1, a2, l1, l2, damp_factor),
    ensures
        first == second,
{
    let t1 = choose|trig: AngleTrig<T>|
        {
            &&& #[trigger] angles_sampled(a1, a2, trig)
            &&& first == State::initial(m1, m2, a1, a2, l1, l2, damp_factor, trig)
        };
    let t2 = choose|trig: AngleTrig<T>|
        {
            &&& #[trigger] angles_sampled(a1, a2, trig)
            &&& second == State::initial(m1, m2, a1, a2, l1, l2, damp_factor, trig)
        };
    angle_samples_agree(a1, a2, t1, t2);
}

/// A step never changes the masses, the lengths, gravity or the damping.
pub proof fn step_keeps_parameters<T: Scalar>(before: State<T>, after: State<T>)
    requires
        before.steps_to(after),
    ensures
        after.same_parameters(before),
{
}

/// After a step the positions are those of the new angles.
pub proof fn step_leaves_positioned<T: Scalar>(before: State<T>, after: State<T>)
    requires
        before.steps_to(after),
    ensures
        after.positioned(),
{
    let (coupling, angles) = choose|coupling: CouplingTrig<T>, angles: AngleTrig<T>| #[trigger]
        before.steps_through(coupling, angles, after);
    assert(angles_sampled(after.a1, after.a2, angles));
}

/// One state has one successor, where the scalar's sine and cosine are
/// single-valued: a step depends on nothing but the state it starts from.
pub proof fn step_is_deterministic<T: Scalar>(before: State<T>, first: State<T>, second: State<T>)
    requires
        single_valued_trig::<T>(),
        before.steps_to(first),
        before.steps_to(second),
    ensures
        first == second,
{
    let (c1, t1) = choose|coupling: CouplingTrig<T>, angles: AngleTrig<T>| #[trigger]
        before.steps_through(coupling, angles, first);
    let (c2, t2) = choose|coupling: CouplingTrig<T>, angles: AngleTrig<T>| #[trigger]
        before.steps_through(coupling, angles, second);
    coupling_samples_agree(before.a1, before.a2, c1, c2);
    angle_samples_agree(first.a1, first.a2, t1, t2);
}

/// However many steps a pendulum takes, its masses, lengths, gravity and
/// damping are those it started with.
pub proof fn trajectory_keeps_parameters<T: Scalar>(states: Seq<State<T>>, i: int)
    requires
        is_trajectory(states),
        0 <= i < states.len(),
    ensures
        states[i].same_parameters(states[0]),
    decreases i,
{
    if i > 0 {
        trajectory_keeps_parameters(states, i - 1);
        step_keeps_parameters(states[i - 1], states[i]);
    }
}

/// Every state that a step has led to has the positions of its angles.
pub proof fn trajectory_stays_positioned<T: Scalar>(states: Seq<State<T>>, i: int)
    requires
        is_trajectory(states),
        0 < i < states.len(),
    ensures
        states[i].positioned(),
{
    step_leaves_positioned(states[i - 1], states[i]);
}

/// Two trajectories from one state agree state by state, as far as both go,
/// where the scalar's sine and cosine are single-valued.
pub proof fn trajectories_agree<T: Scalar>(
    first: Seq<State<T>>,
    second: Seq<State<T>>,
    i: int,
)
    requires
        single_valued_trig::<T>(),
        is_trajectory(first),
        is_trajectory(second),
        0 <= i < first.len(),
        i < second.len(),
        first[0] == second[0],
    ensures
        first[i] == second[i],
    decreases i,
{
    if i > 0 {
        trajectories_agree(first, second, i - 1);
        step_is_deterministic(first[i - 1], first[i], second[i]);
    }
}

/// Two pendulums built from the same seven parameters and advanced the same
/// number of times pass through the same states, and so show the same joint
/// and the same end at every step, where the scalar's sine and cosine are
/// single-valued.
pub proof fn equal_parameters_give_equal_trajectories<T: Scalar>(
    m1: T,
    m2: T,
    a1: T,
    a2: T,
    l1: T,
    l2: T,
    damp_factor: T,
    first: Seq<State<T>>,
    second: Seq<State<T>>,
)
    requires
        single_valued_trig::<T>(),
        first.len() == second.len(),
        first.len() > 0,
        first[0].built_from(m1, m2, a1, a2, l1, l2, damp_factor),
        second[0].built_from(m1, m2, a1, a2, l1, l2, damp_factor),
        is_trajectory(first),
        is_trajectory(second),
    ensures
        first == second,
{
    construction_is_deterministic(first[0], second[0], m1, m2, a1, a2, l1, l2, damp_factor);
    assert forall|i: int| 0 <= i < first.len() implies first[i] == second[i] by {
        trajectories_agree(first, second, i);
    }
    assert(first =~= second);
}

} // verus!
