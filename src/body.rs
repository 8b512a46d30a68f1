use vstd::prelude::*;

verus! {

/// One rigid arm of a double pendulum, over a scalar type `F`.
///
/// Its length and mass must stay positive: the equations of motion divide by
/// terms built from them.
#[derive(Clone, Copy)]
pub struct Pendulum<F> {
    /// Angle from the downward vertical, in radians.
    pub angle: F,
    /// Angular velocity, in radians per second.
    pub velocity: F,
    /// Last computed angular acceleration; informational only.
    pub acceleration: F,
    /// Arm length, in meters.
    pub length: F,
    /// Bob mass, in kilograms.
    pub mass: F,
}

impl<F: Copy> Pendulum<F> {
    /// The same arm turned to `angle`.
    pub open spec fn with_angle(self, angle: F) -> Self {
        Pendulum { angle, ..self }
    }

    /// The same arm with its motion set to `angle` and `velocity`.
    pub open spec fn with_motion(self, angle: F, velocity: F) -> Self {
        Pendulum { angle, velocity, ..self }
    }
}

/// One simulated double pendulum: two arms, a display colour of type `C`,
/// its simulation time, and the arms as they were built, kept for reset.
pub struct DoublePendulum<F, C> {
    /// The upper arm, hung from the pivot.
    pub p1: Pendulum<F>,
    /// The lower arm, hung from the end of the upper one.
    pub p2: Pendulum<F>,
    /// Display colour.
    pub col: C,
    /// Simulation time of this body.
    pub t: F,
    /// The arms as they were built; nothing in this library writes it after
    /// construction.
    pub initial_state: (Pendulum<F>, Pendulum<F>),
}

impl<F: Copy, C: Copy> DoublePendulum<F, C> {
    /// `self` is `before` with both arms back at their initial state.
    pub open spec fn is_reset_of(self, before: Self) -> bool {
        &&& self.p1 == before.initial_state.0
        &&& self.p2 == before.initial_state.1
        &&& self.col == before.col
        &&& self.t == before.t
        &&& self.initial_state == before.initial_state
    }

    /// `self` is `before` with its dynamical state set to `(a1, v1, a2, v2)`.
    pub open spec fn is_moved_from(self, before: Self, a1: F, v1: F, a2: F, v2: F) -> bool {
        &&& self.p1 == before.p1.with_motion(a1, v1)
        &&& self.p2 == before.p2.with_motion(a2, v2)
        &&& self.col == before.col
        &&& self.t == before.t
        &&& self.initial_state == before.initial_state
    }

    /// A body whose arms are copies of `arm` turned to `a1` and `a2`; this
    /// pair is also kept as the state that `reset` restores.
    pub fn new(a1: F, a2: F, col: C, arm: Pendulum<F>, t: F) -> (r: Self)
        ensures
            r.p1 == arm.with_angle(a1),
            r.p2 == arm.with_angle(a2),
            r.col == col,
            r.t == t,
            r.initial_state == (r.p1, r.p2),
    {
        let p1 = Pendulum { angle: a1, ..arm };
        let p2 = Pendulum { angle: a2, ..arm };
        DoublePendulum { p1, p2, col, t, initial_state: (p1, p2) }
    }

    /// Puts both arms back to their initial state; colour and time are kept.
    pub fn reset(&mut self)
        ensures
            final(self).is_reset_of(*old(self)),
    {
        self.p1 = self.initial_state.0;
        self.p2 = self.initial_state.1;
    }

    /// The dynamical state `(angle1, velocity1, angle2, velocity2)`.
    pub fn state(&self) -> (r: (F, F, F, F))
        ensures
            r == (self.p1.angle, self.p1.velocity, self.p2.angle, self.p2.velocity),
    {
        (self.p1.angle, self.p1.velocity, self.p2.angle, self.p2.velocity)
    }

    /// Sets the dynamical state `(angle1, velocity1, angle2, velocity2)`;
    /// everything else, the initial state included, is kept.
    pub fn set_state(&mut self, a1: F, v1: F, a2: F, v2: F)
        ensures
            final(self).is_moved_from(*old(self), a1, v1, a2, v2),
    {
        self.p1.angle = a1;
        self.p1.velocity = v1;
        self.p2.angle = a2;
        self.p2.velocity = v2;
    }
}

} // verus!
