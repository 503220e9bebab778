use double_pendulum::DoublePendulum;
use double_pendulum::Point;
use double_pendulum::Scalar;
use std::ops::{Add, Div, Mul, Neg, Sub};

/// A double-precision number as a scalar of the library.
#[derive(Clone, Copy, Debug, PartialEq)]
struct Real(f64);

impl From<i8> for Real {
    fn from(n: i8) -> Real {
        Real(f64::from(n))
    }
}

impl Add for Real {
    type Output = Real;

    fn add(self, rhs: Real) -> Real {
        Real(self.0 + rhs.0)
    }
}

impl Sub for Real {
    type Output = Real;

    fn sub(self, rhs: Real) -> Real {
        Real(self.0 - rhs.0)
    }
}

impl Mul for Real {
    type Output = Real;

    fn mul(self, rhs: Real) -> Real {
        Real(self.0 * rhs.0)
    }
}

impl Div for Real {
    type Output = Real;

    fn div(self, rhs: Real) -> Real {
        Real(self.0 / rhs.0)
    }
}

impl Neg for Real {
    type Output = Real;

    fn neg(self) -> Real {
        Real(-self.0)
    }
}

impl Scalar for Real {
    fn sin(self) -> Real {
        Real(self.0.sin())
    }

    fn cos(self) -> Real {
        Real(self.0.cos())
    }
}

fn pendulum(
    m1: f64,
    m2: f64,
    a1: f64,
    a2: f64,
    l1: f64,
    l2: f64,
    damp_factor: f64,
) -> DoublePendulum<Real> {
    DoublePendulum::new(
        Real(m1),
        Real(m2),
        Real(a1),
        Real(a2),
        Real(l1),
        Real(l2),
        Real(damp_factor),
    )
}

fn coordinates(p: Point<Real>) -> (f64, f64) {
    (p.x().0, p.y().0)
}

/// The pendulum's formulas written out on plain numbers, to compare with.
struct Plain {
    m1: f64,
    m2: f64,
    a1: f64,
    a2: f64,
    l1: f64,
    l2: f64,
    v1: f64,
    v2: f64,
    acc1: f64,
    acc2: f64,
    damp_factor: f64,
}

impl Plain {
    fn new(m1: f64, m2: f64, a1: f64, a2: f64, l1: f64, l2: f64, damp_factor: f64) -> Plain {
        Plain { m1, m2, a1, a2, l1, l2, v1: 0.0, v2: 0.0, acc1: 0.0, acc2: 0.0, damp_factor }
    }

    fn joint(&self) -> (f64, f64) {
        (self.l1 * self.a1.sin(), -self.l1 * self.a1.cos())
    }

    fn end(&self) -> (f64, f64) {
        let (x, y) = self.joint();
        (x + self.l2 * self.a2.sin(), y - self.l2 * self.a2.cos())
    }

    fn step(&mut self) {
        let g = 1.0;
        self.v1 = (self.v1 + 0.2 * self.acc1) * (1.0 - self.damp_factor);
        self.v2 = (self.v2 + 0.2 * self.acc2) * (1.0 - self.damp_factor);

        let (m1, m2, l1, l2) = (self.m1, self.m2, self.l1, self.l2);
        let (a1, a2, v1, v2) = (self.a1, self.a2, self.v1, self.v2);
        let inertia = 2.0 * m1 + m2 - m2 * (2.0 * a1 - 2.0 * a2).cos();
        let first = -g * (2.0 * m1 + m2) * a1.sin()
            + -m2 * g * (a1 - 2.0 * a2).sin()
            + -2.0 * (a1 - a2).sin() * m2 * (v2 * v2 * l2 + v1 * v1 * l1 * (a1 - a2).cos());
        let second = 2.0
            * (a1 - a2).sin()
            * (v1 * v1 * l1 * (m1 + m2)
                + g * (m1 + m2) * a1.cos()
                + v2 * v2 * l2 * m2 * (a1 - a2).cos());
        self.acc1 = first / (l1 * inertia);
        self.acc2 = second / (l2 * inertia);

        self.a1 += self.v1;
        self.a2 += self.v2;
    }
}

fn same_bits(left: (f64, f64), right: (f64, f64)) -> bool {
    left.0.to_bits() == right.0.to_bits() && left.1.to_bits() == right.1.to_bits()
}

#[test]
fn dp() {
    let pi = std::f64::consts::PI;
    let p = pendulum(10.0, 10.0, 0.0, pi / 2.0, 50.0, 50.0, 0.01);

    let joint = p.get_joint();
    assert_eq!(joint.x(), Real(0.0));
    assert_eq!(joint.y(), Real(-50.0));
}

#[test]
fn initial_joint_position() {
    let p = pendulum(1.0, 1.0, 0.0, 1.0, 50.0, 20.0, 0.0);
    assert_eq!(p.get_joint(), Point::new(Real(0.0), Real(-50.0)));
}

#[test]
fn initial_end_position() {
    let pi = std::f64::consts::PI;
    let p = pendulum(10.0, 10.0, 0.0, pi / 2.0, 50.0, 50.0, 0.01);
    assert_eq!(coordinates(p.get_end()), (50.0, -50.0));
    let q = pendulum(10.0, 10.0, 0.0, 0.0, 50.0, 30.0, 0.01);
    assert_eq!(coordinates(q.get_end()), (0.0, -80.0));
}

#[test]
fn construction_computes_positions_from_the_angles() {
    let cases = [
        (1.0, 2.0, 0.3, -0.7, 5.0, 3.0, 0.0),
        (10.0, 10.0, 2.5, 4.0, 50.0, 50.0, 0.01),
        (0.5, 0.25, -3.0, 0.001, 1.0e-3, 1.0e3, 0.5),
        (1.0, 1.0, 1.0e10, -1.0e-10, 2.0, 2.0, 0.0),
    ];
    for (m1, m2, a1, a2, l1, l2, damp) in cases {
        let p = pendulum(m1, m2, a1, a2, l1, l2, damp);
        let plain = Plain::new(m1, m2, a1, a2, l1, l2, damp);
        assert!(same_bits(coordinates(p.get_joint()), plain.joint()));
        assert!(same_bits(coordinates(p.get_end()), plain.end()));
        assert_ne!(coordinates(p.get_end()), (0.0, 0.0));
    }
}

#[test]
fn parameters_are_kept_as_given() {
    let p = pendulum(1.5, 2.5, 0.3, -0.7, 5.0, 3.0, 0.25);
    assert_eq!(p.m1(), Real(1.5));
    assert_eq!(p.m2(), Real(2.5));
    assert_eq!(p.l1(), Real(5.0));
    assert_eq!(p.l2(), Real(3.0));
}

#[test]
fn parameters_are_not_checked() {
    let p = pendulum(-1.0, 0.0, f64::NAN, f64::INFINITY, -5.0, 0.0, 7.0);
    assert_eq!(p.m1(), Real(-1.0));
    assert_eq!(p.m2(), Real(0.0));
    assert_eq!(p.l1(), Real(-5.0));
    assert_eq!(p.l2(), Real(0.0));
    assert!(p.get_joint().x().0.is_nan());
}

#[test]
fn steps_keep_the_parameters() {
    let mut p = pendulum(1.5, 2.5, 0.3, -0.7, 5.0, 3.0, 0.25);
    for _ in 0..100 {
        p.new_pos();
        assert_eq!(p.m1(), Real(1.5));
        assert_eq!(p.m2(), Real(2.5));
        assert_eq!(p.l1(), Real(5.0));
        assert_eq!(p.l2(), Real(3.0));
    }
}

#[test]
fn first_step_starts_from_rest() {
    // The accelerations start at zero, so the first step moves nothing: it
    // only computes the accelerations that the second step will use.
    let pi = std::f64::consts::PI;
    let mut p = pendulum(10.0, 10.0, 0.0, pi / 2.0, 50.0, 50.0, 0.01);
    let joint = p.get_joint();
    let end = p.get_end();
    p.new_pos();
    assert!(same_bits(coordinates(p.get_joint()), coordinates(joint)));
    assert!(same_bits(coordinates(p.get_end()), coordinates(end)));
    p.new_pos();
    assert_ne!(p.get_end(), end);
}

#[test]
fn second_step_uses_the_first_step_acceleration() {
    // After the first step the second arm's acceleration is
    // 2*sin(-pi/2)*(1*(10 + 10)*cos(0)) / (50*(30 - 10*cos(-pi))) = -0.02,
    // so the second step turns the second arm by (0.2 * -0.02) * 0.99.
    let pi = std::f64::consts::PI;
    let mut p = pendulum(10.0, 10.0, 0.0, pi / 2.0, 50.0, 50.0, 0.01);
    p.new_pos();
    p.new_pos();
    let a2 = pi / 2.0 + (0.2 * -0.02) * (1.0 - 0.01);
    let (jx, jy) = coordinates(p.get_joint());
    let (ex, ey) = coordinates(p.get_end());
    assert!((ex - jx - 50.0 * a2.sin()).abs() < 1.0e-12);
    assert!((ey - jy + 50.0 * a2.cos()).abs() < 1.0e-12);
    assert!((ex - 49.999607960512314).abs() < 1.0e-9);
    assert!((ey + 50.197999482507605).abs() < 1.0e-9);
}

#[test]
fn trajectory_follows_the_formulas() {
    let cases = [
        (10.0, 10.0, 0.0, std::f64::consts::PI / 2.0, 50.0, 50.0, 0.01),
        (1.0, 2.0, 0.3, -0.7, 5.0, 3.0, 0.0),
        (3.0, 0.5, 2.0, 1.0, 20.0, 40.0, 0.1),
    ];
    for (m1, m2, a1, a2, l1, l2, damp) in cases {
        let mut p = pendulum(m1, m2, a1, a2, l1, l2, damp);
        let mut plain = Plain::new(m1, m2, a1, a2, l1, l2, damp);
        for _ in 0..300 {
            p.new_pos();
            plain.step();
            assert!(same_bits(coordinates(p.get_joint()), plain.joint()));
            assert!(same_bits(coordinates(p.get_end()), plain.end()));
        }
    }
}

#[test]
fn equal_parameters_give_equal_trajectories() {
    let mut first = pendulum(10.0, 7.0, 1.0, 2.0, 50.0, 30.0, 0.001);
    let mut second = pendulum(10.0, 7.0, 1.0, 2.0, 50.0, 30.0, 0.001);
    assert!(same_bits(coordinates(first.get_joint()), coordinates(second.get_joint())));
    assert!(same_bits(coordinates(first.get_end()), coordinates(second.get_end())));
    for _ in 0..1000 {
        first.new_pos();
        second.new_pos();
        assert!(same_bits(coordinates(first.get_joint()), coordinates(second.get_joint())));
        assert!(same_bits(coordinates(first.get_end()), coordinates(second.get_end())));
    }
    assert_eq!(first, second);
}

#[test]
fn copy_runs_on_its_own() {
    let mut first = pendulum(10.0, 7.0, 1.0, 2.0, 50.0, 30.0, 0.001);
    for _ in 0..10 {
        first.new_pos();
    }
    let mut twin = first;
    let joint = first.get_joint();
    for _ in 0..10 {
        twin.new_pos();
    }
    assert_eq!(first.get_joint(), joint);
    assert_ne!(twin.get_joint(), joint);
    for _ in 0..10 {
        first.new_pos();
    }
    assert_eq!(first, twin);
}

#[test]
fn hanging_pendulum_stays_where_it_is() {
    let mut p = pendulum(3.0, 2.0, 0.0, 0.0, 7.0, 5.0, 0.0);
    for _ in 0..100 {
        p.new_pos();
        assert_eq!(coordinates(p.get_joint()), (0.0, -7.0));
        assert_eq!(coordinates(p.get_end()), (0.0, -12.0));
    }
}

#[test]
fn arms_keep_their_lengths() {
    let mut p = pendulum(10.0, 10.0, 0.4, 1.3, 50.0, 30.0, 0.01);
    for _ in 0..500 {
        p.new_pos();
        let (jx, jy) = coordinates(p.get_joint());
        let (ex, ey) = coordinates(p.get_end());
        assert!((jx.hypot(jy) - 50.0).abs() < 1.0e-9);
        assert!(((ex - jx).hypot(ey - jy) - 30.0).abs() < 1.0e-9);
    }
}

#[test]
fn released_arm_falls_towards_the_vertical() {
    // Both arms start to the right of the pivot, at rest: gravity must turn
    // them back, so the end moves left and down at first.
    let mut p = pendulum(1.0, 1.0, 0.5, 0.5, 50.0, 50.0, 0.0);
    let (x0, y0) = coordinates(p.get_end());
    for _ in 0..10 {
        p.new_pos();
    }
    let (x1, y1) = coordinates(p.get_end());
    assert!(x1 < x0);
    assert!(y1 < y0);
}

#[test]
fn potential_energy_stays_bounded_without_damping() {
    // Released at rest from small angles, the pendulum cannot rise above
    // where it started by more than the scheme's drift.
    let (m1, m2) = (1.0, 1.0);
    let mut p = pendulum(m1, m2, 0.01, 0.01, 50.0, 50.0, 0.0);
    let potential = |p: &DoublePendulum<Real>| m1 * p.get_joint().y().0 + m2 * p.get_end().y().0;
    let released = potential(&p);
    let lowest = -(m1 * 50.0 + m2 * 100.0);
    for _ in 0..200 {
        p.new_pos();
        let now = potential(&p);
        assert!(now.is_finite());
        assert!(now >= lowest - 1.0e-9);
        assert!(now <= released + 0.05);
    }
}

#[test]
fn damped_pendulum_comes_to_rest_at_the_bottom() {
    let mut p = pendulum(1.0, 1.0, 0.1, 0.1, 50.0, 50.0, 0.05);
    for _ in 0..2000 {
        p.new_pos();
    }
    let (jx, jy) = coordinates(p.get_joint());
    let (ex, ey) = coordinates(p.get_end());
    assert!(jx.abs() < 1.0e-6);
    assert!((jy + 50.0).abs() < 1.0e-6);
    assert!(ex.abs() < 1.0e-6);
    assert!((ey + 100.0).abs() < 1.0e-6);
}

#[test]
fn zero_length_arm_gives_no_number() {
    let mut p = pendulum(10.0, 10.0, 0.3, 0.2, 0.0, 50.0, 0.0);
    assert_eq!(coordinates(p.get_joint()), (0.0, 0.0));
    // The first step divides by zero: the first arm's acceleration is
    // infinite. The second step carries it into the angle, whose sine is
    // no number.
    p.new_pos();
    p.new_pos();
    assert!(p.get_joint().x().0.is_nan());
    assert!(p.get_joint().y().0.is_nan());
    assert!(p.get_end().x().0.is_nan());
    for _ in 0..10 {
        p.new_pos();
        assert!(p.get_joint().x().0.is_nan());
        assert!(p.get_end().y().0.is_nan());
    }
    assert_eq!(p.l1(), Real(0.0));
}

#[test]
fn zero_masses_give_no_number() {
    let mut p = pendulum(0.0, 0.0, 0.3, 0.2, 50.0, 50.0, 0.0);
    p.new_pos();
    p.new_pos();
    assert!(p.get_joint().x().0.is_nan());
    assert!(p.get_end().x().0.is_nan());
}

#[test]
fn getters_return_copies() {
    let mut p = pendulum(1.0, 1.0, 0.0, 0.0, 50.0, 50.0, 0.0);
    let mut joint = p.get_joint();
    joint.location(Real(1.0), Real(2.0));
    assert_eq!(p.get_joint(), Point::new(Real(0.0), Real(-50.0)));
    p.new_pos();
    assert_eq!(joint, Point::new(Real(1.0), Real(2.0)));
}
