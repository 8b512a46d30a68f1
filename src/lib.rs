//! The state engine of a double-pendulum simulation: bodies of two arms,
//! an ensemble that advances them tick by tick and records the tracked
//! body's path through angle space as a trail of segments, and the rules
//! that decide when a tick advances and with which time step.
//!
//! The library is generic over the scalar type `F` of angles, velocities,
//! lengths and masses and over the colour type `C`: the numerical
//! integrator and the angle normalizer are handed to `Ensemble::step` as
//! functions.
use vstd::prelude::*;

pub mod body;
pub mod control;
pub mod ensemble;
pub mod trail;

verus! {

} // verus!
