use vstd::prelude::*;

use crate::body::Pendulum;
use crate::ensemble::{ticked, was_reset, Ensemble};

verus! {

/// How the simulation advances: continuously, by a time step taken from the
/// wall clock, or, when `enabled`, one fixed `time_step` per explicit request,
/// which `step` holds until it is served.
#[derive(Clone, Copy)]
pub struct StepForward<T> {
    /// Step-forward mode is on.
    pub enabled: bool,
    /// The fixed time step of step-forward mode.
    pub time_step: T,
    /// A step has been requested and not yet taken.
    pub step: bool,
}

/// The time step of the coming tick, if the simulation advances in it:
/// `continuous` outside step-forward mode, the fixed step when one was
/// requested, and none otherwise.
pub open spec fn tick_time_step<T>(sf: StepForward<T>, continuous: T) -> Option<T> {
    if !sf.enabled {
        Some(continuous)
    } else if sf.step {
        Some(sf.time_step)
    } else {
        None
    }
}

impl<T: Copy> StepForward<T> {
    /// Continuous mode, with `time_step` kept for step-forward mode.
    pub fn new(time_step: T) -> (r: Self)
        ensures
            !r.enabled,
            !r.step,
            r.time_step == time_step,
    {
        StepForward { enabled: false, time_step, step: false }
    }

    /// Takes the time step of the coming tick, given the wall-clock step
    /// `continuous`; a pending request is served.
    pub fn next_time_step(&mut self, continuous: T) -> (r: Option<T>)
        ensures
            r == tick_time_step(*old(self), continuous),
            final(self).enabled == old(self).enabled,
            final(self).time_step == old(self).time_step,
            !final(self).step,
    {
        let r = if !self.enabled {
            Some(continuous)
        } else if self.step {
            Some(self.time_step)
        } else {
            None
        };
        self.step = false;
        r
    }
}

/// Handles the keys pressed in one frame: `reset_key` puts every body back
/// to its initial state and clears the trail, `mode_key` switches
/// step-forward mode on or off, and `step_key` requests a step when the mode
/// is on (after any switch).
pub fn key_press<F: Copy, C: Copy>(
    ensemble: &mut Ensemble<F, C>,
    step_forward: &mut StepForward<F>,
    reset_key: bool,
    mode_key: bool,
    step_key: bool,
)
    ensures
        reset_key ==> was_reset(*old(ensemble), *final(ensemble)),
        !reset_key ==> *final(ensemble) == *old(ensemble),
        final(step_forward).enabled == (old(step_forward).enabled != mode_key),
        final(step_forward).step == (old(step_forward).step || (final(step_forward).enabled
            && step_key)),
        final(step_forward).time_step == old(step_forward).time_step,
{
    if reset_key {
        ensemble.reset_all();
    }
    if mode_key {
        step_forward.enabled = !step_forward.enabled;
    }
    if step_forward.enabled && step_key {
        step_forward.step = true;
    }
}

/// Runs one frame of the simulation: when `step_forward` lets it advance,
/// every body moves by the tick's time step (the wall-clock step
/// `continuous`, or the fixed one) under gravity `g`; otherwise nothing
/// moves. A pending step request is served either way.
pub fn update<F: Copy, C: Copy, I, N>(
    ensemble: &mut Ensemble<F, C>,
    step_forward: &mut StepForward<F>,
    continuous: F,
    g: F,
    integrate: I,
    normalize: N,
) where
    I: Fn(Pendulum<F>, Pendulum<F>, F, F) -> (F, F, F, F),
    N: Fn(F) -> (F, bool),

    requires
        old(ensemble).wf(),
        forall|p1: Pendulum<F>, p2: Pendulum<F>, h: F| integrate.requires((p1, p2, h, g)),
        forall|a: F| normalize.requires((a,)),
    ensures
        final(ensemble).wf(),
        match tick_time_step(*old(step_forward), continuous) {
            Some(h) => ticked(*old(ensemble), *final(ensemble), h, g, integrate, normalize),
            None => *final(ensemble) == *old(ensemble),
        },
        final(step_forward).enabled == old(step_forward).enabled,
        final(step_forward).time_step == old(step_forward).time_step,
        !final(step_forward).step,
{
    match step_forward.next_time_step(continuous) {
        Some(h) => ensemble.step(h, g, integrate, normalize),
        None => {},
    }
}

} // verus!
