use double_pendulum::body::{DoublePendulum, Pendulum};
use double_pendulum::ensemble::Ensemble;
use std::f64::consts::PI;

fn arm(mass: f64, length: f64) -> Pendulum<f64> {
    Pendulum { angle: 0.0, velocity: 0.0, acceleration: 0.0, length, mass }
}

/// A stand-in integrator: angles move by h times velocity plus the arm's
/// length, velocities by h times gravity times the mass.
fn drift(p1: Pendulum<f64>, p2: Pendulum<f64>, h: f64, g: f64) -> (f64, f64, f64, f64) {
    (
        p1.angle + h * (p1.velocity + p1.length),
        p1.velocity + h * g * p1.mass,
        p2.angle + h * (p2.velocity + p2.length),
        p2.velocity + h * g * p2.mass,
    )
}

fn wrap(a: f64) -> (f64, bool) {
    if a > PI {
        (a - 2.0 * PI, true)
    } else if a <= -PI {
        (a + 2.0 * PI, true)
    } else {
        (a, false)
    }
}

fn body(a1: f64, a2: f64, m: f64, l: f64) -> DoublePendulum<f64, u32> {
    DoublePendulum::new(a1, a2, 0, arm(m, l), 0.0)
}

#[test]
fn new_keeps_order_and_starts_empty_trail() {
    let e = Ensemble::new(vec![body(0.1, 0.2, 1.0, 1.0), body(0.3, 0.4, 1.0, 1.0)]);
    assert_eq!(e.bodies.len(), 2);
    assert_eq!(e.bodies[0].p1.angle, 0.1);
    assert_eq!(e.bodies[1].p2.angle, 0.4);
    assert_eq!(e.segments().len(), 1);
    assert!(e.segments()[0].is_empty());
}

#[test]
fn step_advances_each_body_with_its_own_parameters() {
    let mut e = Ensemble::new(vec![body(0.0, 0.0, 1.0, 1.0), body(0.0, 0.0, 2.0, 0.5)]);
    e.step(0.5, 10.0, drift, wrap);
    assert_eq!(e.bodies[0].state(), (0.5, 5.0, 0.5, 5.0));
    assert_eq!(e.bodies[1].state(), (0.25, 10.0, 0.25, 10.0));
    assert_eq!(e.bodies[1].p1.mass, 2.0);
    assert_eq!(e.bodies[1].p2.length, 0.5);
    assert_eq!(e.bodies[0].initial_state.0.angle, 0.0);
}

#[test]
fn step_records_only_the_first_body() {
    let mut e = Ensemble::new(vec![body(1.0, 2.0, 1.0, 1.0), body(-1.0, -2.0, 1.0, 1.0)]);
    e.step(0.0, 9.81, drift, wrap);
    e.step(0.0, 9.81, drift, wrap);
    assert_eq!(e.segments().len(), 1);
    assert_eq!(e.segments()[0], vec![[1.0, 2.0], [1.0, 2.0]]);
}

#[test]
fn step_normalizes_every_body() {
    let mut e = Ensemble::new(vec![body(0.0, 0.0, 1.0, 1.0), body(3.0, -3.0, 1.0, 1.0)]);
    e.step(0.5, 0.0, drift, wrap);
    let (a1, _, a2, _) = e.bodies[1].state();
    assert!((a1 - (3.5 - 2.0 * PI)).abs() < 1e-12);
    assert_eq!(a2, -2.5);
    assert_eq!(e.segments().len(), 1);
}

#[test]
fn full_revolution_opens_exactly_one_segment() {
    let mut e = Ensemble::new(vec![body(0.0, 0.0, 1.0, 0.0)]);
    e.bodies[0].p1.velocity = 1.0;
    let ticks = 70;
    for _ in 0..ticks {
        e.step(0.1, 0.0, drift, wrap);
    }
    let segs = e.segments();
    assert_eq!(segs.len(), 2);
    let total: usize = segs.iter().map(|s| s.len()).sum();
    assert_eq!(total, ticks);
    assert!(segs[0].last().unwrap()[0] > 3.0);
    assert!(segs[1][0][0] < -3.0);
}

#[test]
fn step_on_empty_ensemble_does_nothing() {
    let mut e: Ensemble<f64, u32> = Ensemble::new(Vec::new());
    e.step(0.01, 9.81, drift, wrap);
    assert!(e.bodies.is_empty());
    assert_eq!(e.segments().len(), 1);
    assert!(e.segments()[0].is_empty());
    e.reset_all();
    assert!(e.bodies.is_empty());
}

#[test]
fn reset_all_after_steps_restores_initial_state() {
    let mut e = Ensemble::new(vec![body(2.49, 0.25, 1.0, 1.0), body(0.5, -0.5, 2.0, 1.5)]);
    for _ in 0..100 {
        e.step(0.05, 9.81, drift, wrap);
    }
    e.bodies[1].p1.mass = 3.0;
    e.reset_all();
    assert_eq!(e.bodies[0].state(), (2.49, 0.0, 0.25, 0.0));
    assert_eq!(e.bodies[1].state(), (0.5, 0.0, -0.5, 0.0));
    assert_eq!(e.bodies[1].p1.mass, 2.0);
    assert_eq!(e.bodies[1].p2.length, 1.5);
    assert_eq!(e.segments().len(), 1);
    assert!(e.segments()[0].is_empty());
}

#[test]
fn clear_trail_keeps_bodies() {
    let mut e = Ensemble::new(vec![body(0.0, 0.0, 1.0, 1.0)]);
    e.step(0.5, 1.0, drift, wrap);
    let before = e.bodies[0].state();
    e.clear_trail();
    assert_eq!(e.bodies[0].state(), before);
    assert_eq!(e.segments().len(), 1);
    assert!(e.segments()[0].is_empty());
}

#[test]
fn identical_ensembles_step_to_identical_states() {
    let make = || Ensemble::new(vec![body(2.49, 0.25, 1.0, 1.0), body(-1.0, 3.0, 2.0, 0.5)]);
    let mut a = make();
    let mut b = make();
    for _ in 0..50 {
        a.step(0.07, 9.81, drift, wrap);
        b.step(0.07, 9.81, drift, wrap);
    }
    for i in 0..2 {
        let (sa, sb) = (a.bodies[i].state(), b.bodies[i].state());
        assert_eq!(sa.0.to_bits(), sb.0.to_bits());
        assert_eq!(sa.1.to_bits(), sb.1.to_bits());
        assert_eq!(sa.2.to_bits(), sb.2.to_bits());
        assert_eq!(sa.3.to_bits(), sb.3.to_bits());
    }
    assert_eq!(a.segments(), b.segments());
}
