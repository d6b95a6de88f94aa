//! Deterministic fixed-point core of a five-act particle visualizer.
//!
//! Pea-shaped particles drift, swarm, orbit, disperse and dissolve across a
//! scripted five-act timeline. This crate holds the simulation: the act
//! clock and the blending of act-dependent values, the particle pool, the
//! forces that move the particles, gesture recognition, trails, and the
//! mapping of a procedural audio signal to visual parameters.
//!
//! Every quantity is a fixed-point number (see [`fixed`]), so that a run is
//! reproducible bit for bit. The core evaluates no sine, exponential or
//! fractional power: where a formula needs one, a function of the core
//! returns the argument, the host evaluates the function there, and another
//! function of the core takes the value. Windowing, rendering, asset
//! loading and audio playback belong to the host as well.

use vstd::prelude::*;

pub mod fixed;
pub mod vector;
pub mod color;
pub mod rng;
pub mod types;
pub mod components;
pub mod resources;
pub mod act_management;
pub mod particle;
pub mod trail;
pub mod audio_reactive;
pub mod interaction;
pub mod visual;
pub mod post_process;
pub mod intro;

use crate::fixed::{Fixed, fx_clamp, fx_div, fx_sub, ONE};
use crate::types::{Act, TOTAL_DURATION_SECONDS};

verus! {

/// The act at an elapsed time in seconds.
pub fn act_at_time(elapsed_seconds: Fixed) -> (act: Act)
    ensures
        act == Act::from_elapsed_seconds(elapsed_seconds),
{
    Act::from_elapsed_seconds(elapsed_seconds)
}

/// The share of the act at `elapsed_seconds` that has passed by then.
pub open spec fn act_progress_at_time_spec(elapsed_seconds: Fixed) -> Fixed {
    let act = Act::from_elapsed_seconds(elapsed_seconds);
    fx_clamp(
        fx_div(fx_sub(elapsed_seconds, act.start_seconds()), act.duration_seconds()),
        0,
        ONE,
    )
}

/// The progress within the act at an elapsed time, from 0 at the act's
/// start to 1 at its end; times outside the timeline are clamped.
#[verifier::when_used_as_spec(act_progress_at_time_spec)]
pub fn act_progress_at_time(elapsed_seconds: Fixed) -> (progress: Fixed)
    ensures
        progress == act_progress_at_time_spec(elapsed_seconds),
        0 <= progress <= ONE,
{
    let act = Act::from_elapsed_seconds(elapsed_seconds);
    fx_clamp(
        fx_div(fx_sub(elapsed_seconds, act.start_seconds()), act.duration_seconds()),
        0,
        ONE,
    )
}

/// The share of the whole experience that has passed at `elapsed_seconds`.
pub open spec fn total_progress_spec(elapsed_seconds: Fixed) -> Fixed {
    fx_clamp(fx_div(elapsed_seconds, TOTAL_DURATION_SECONDS), 0, ONE)
}

/// The progress through the whole experience, from 0 to 1, clamped.
#[verifier::when_used_as_spec(total_progress_spec)]
pub fn total_progress(elapsed_seconds: Fixed) -> (progress: Fixed)
    ensures
        progress == total_progress_spec(elapsed_seconds),
        0 <= progress <= ONE,
{
    fx_clamp(fx_div(elapsed_seconds, TOTAL_DURATION_SECONDS), 0, ONE)
}

} // verus!
