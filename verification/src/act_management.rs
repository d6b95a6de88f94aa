//! The act clock and the blending of act-dependent values.
//!
//! [`update_act_progression`] advances the timeline and reports what
//! happened; [`interpolate_act_values`] and [`update_post_process_for_act`]
//! derive the blended per-act values from the resulting state.

use vstd::prelude::*;
use crate::color::Srgba;
use crate::fixed::{Fixed, fx_add, fx_sub, fx_div, fx_clamp, fx_lerp, ONE, HALF};
use crate::resources::{
    ActState, ActTimings, BackgroundGradients, CurrentBackground, CurrentInteractionMode,
    InterpolatedActValues, PostProcessSettings,
};
use crate::types::{Act, TOTAL_DURATION_SECONDS};

verus! {

/// Saturation multiplier of each act, by act index.
pub const ACT_SATURATION: [Fixed; 5] = [400_000, 600_000, 1_000_000, 700_000, 300_000];

/// Target particle density of each act, by act index.
pub const ACT_DENSITY: [Fixed; 5] = [
    200_000_000,
    1_000_000_000,
    5_000_000_000,
    2_000_000_000,
    100_000_000,
];

/// Chromatic aberration strength of each act, by act index.
pub const ACT_CHROMATIC_ABERRATION: [Fixed; 5] = [0, 2_000, 8_000, 4_000, 1_000];

/// Vignette intensity of each act, by act index.
pub const ACT_VIGNETTE: [Fixed; 5] = [500_000, 400_000, 350_000, 200_000, 50_000];

/// Bloom intensity of each act, by act index.
pub const ACT_BLOOM: [Fixed; 5] = [200_000, 350_000, 600_000, 450_000, 500_000];

/// Seconds that the timeline runs past its end before it starts over.
pub const LOOP_GRACE_SECONDS: Fixed = 2_000_000;

/// Reported when a transition between two acts begins.
#[derive(Clone, Copy, Debug, PartialEq, Eq, Structural)]
pub struct ActTransitionStarted {
    /// The act being left.
    pub from: Act,
    /// The act being entered.
    pub to: Act,
}

/// Reported when a transition has run its full duration.
#[derive(Clone, Copy, Debug, PartialEq, Eq, Structural)]
pub struct ActTransitionCompleted {
    /// The act now fully in force.
    pub act: Act,
}

/// What one tick of the act clock reports.
#[derive(Clone, Copy, Debug, PartialEq, Eq)]
pub struct ActEvents {
    /// The timeline ran out and started over. What follows for the
    /// hyperspace effect is decided by
    /// [`crate::interaction::hyperspace_after_wrap`].
    pub wrapped: bool,
    /// A transition began on this tick.
    pub started: Option<ActTransitionStarted>,
    /// A transition finished on this tick.
    pub completed: Option<ActTransitionCompleted>,
}

/// Cubic ease-in-out of `t` after clamping it to `[0, ONE]`: `4 t^3` on the
/// first half and `1 - (2 - 2 t)^3 / 2` on the second.
pub open spec fn ease_in_out_cubic_spec(t: Fixed) -> Fixed {
    let c = fx_clamp(t, 0, ONE) as int;
    if c < HALF {
        ((4 * (c * c * c)) / 1_000_000_000_000) as Fixed
    } else {
        (ONE - ((2 * ONE - 2 * c) * (2 * ONE - 2 * c) * (2 * ONE - 2 * c)) / 2_000_000_000_000) as Fixed
    }
}

/// The cube of a value between zero and one million stays below ten to the
/// eighteenth.
proof fn lemma_cube_bound(c: int, limit: int)
    requires
        0 <= c <= limit,
    ensures
        0 <= c * c <= limit * limit,
        0 <= c * c * c <= limit * limit * limit,
{
    assert(0 <= c * c <= limit * limit) by (nonlinear_arith)
        requires
            0 <= c <= limit,
    ;
    assert(0 <= c * c * c <= limit * limit * limit) by (nonlinear_arith)
        requires
            0 <= c <= limit,
            0 <= c * c <= limit * limit,
    ;
}

/// Cubing keeps the order of non-negative numbers.
proof fn lemma_cube_monotone(a: int, b: int)
    requires
        0 <= a <= b,
    ensures
        a * a * a <= b * b * b,
{
    assert(a * a <= b * b) by (nonlinear_arith)
        requires
            0 <= a <= b,
    ;
    assert(a * a * a <= b * b * b) by (nonlinear_arith)
        requires
            0 <= a <= b,
            0 <= a * a <= b * b,
    ;
}

/// Cubic ease-in-out. The input is clamped to `[0, ONE]` first.
#[verifier::when_used_as_spec(ease_in_out_cubic_spec)]
pub fn ease_in_out_cubic(t: Fixed) -> (r: Fixed)
    ensures
        r == ease_in_out_cubic_spec(t),
        0 <= r <= ONE,
{
    let c: i64 = fx_clamp(t, 0, ONE);
    if c < HALF {
        proof {
            lemma_cube_bound(c as int, 500_000);
        }
        let cube: i64 = c * c * c;
        (4 * cube) / 1_000_000_000_000
    } else {
        let u: i64 = 2 * ONE - 2 * c;
        proof {
            lemma_cube_bound(u as int, 1_000_000);
        }
        let cube: i64 = u * u * u;
        ONE - cube / 2_000_000_000_000
    }
}

/// On the first half the curve stays below one half.
proof fn lemma_ease_first_half(c: int)
    requires
        0 <= c < HALF,
    ensures
        0 <= 4 * (c * c * c) <= 499_997_000_005_999_996,
        0 <= (4 * (c * c * c)) / 1_000_000_000_000 < HALF,
{
    lemma_cube_bound(c, 499_999);
    assert(499_999int * 499_999 * 499_999 == 124_999_250_001_499_999) by (nonlinear_arith);
}

/// On the second half the curve stays at or above one half.
proof fn lemma_ease_second_half(c: int)
    requires
        HALF <= c <= ONE,
    ensures
        0 <= (2 * ONE - 2 * c) * (2 * ONE - 2 * c) * (2 * ONE - 2 * c)
            <= 1_000_000_000_000_000_000,
        HALF <= ONE - ((2 * ONE - 2 * c) * (2 * ONE - 2 * c) * (2 * ONE - 2 * c))
            / 2_000_000_000_000 <= ONE,
{
    lemma_cube_bound(2 * ONE - 2 * c, 1_000_000);
    assert(1_000_000int * 1_000_000 * 1_000_000 == 1_000_000_000_000_000_000) by (nonlinear_arith);
}

/// The eased value never leaves `[0, ONE]`, whatever the input.
pub proof fn lemma_ease_in_range(t: Fixed)
    ensures
        0 <= ease_in_out_cubic(t) <= ONE,
{
    let c = fx_clamp(t, 0, ONE) as int;
    if c < HALF {
        lemma_ease_first_half(c);
    } else {
        lemma_ease_second_half(c);
    }
}

/// The eased value never decreases as the input grows.
pub proof fn lemma_ease_is_monotone(a: Fixed, b: Fixed)
    requires
        a <= b,
    ensures
        ease_in_out_cubic(a) <= ease_in_out_cubic(b),
{
    let ca = fx_clamp(a, 0, ONE) as int;
    let cb = fx_clamp(b, 0, ONE) as int;
    assert(ca <= cb);
    if cb < HALF {
        lemma_ease_first_half(ca);
        lemma_ease_first_half(cb);
        lemma_cube_monotone(ca, cb);
    } else if ca >= HALF {
        lemma_ease_second_half(ca);
        lemma_ease_second_half(cb);
        lemma_cube_monotone(2 * ONE - 2 * cb, 2 * ONE - 2 * ca);
    } else {
        lemma_ease_first_half(ca);
        lemma_ease_second_half(cb);
    }
}

/// The curve starts at zero, ends at one and passes through one half at
/// one half.
pub proof fn lemma_ease_fixed_points()
    ensures
        ease_in_out_cubic(0) == 0,
        ease_in_out_cubic(ONE) == ONE,
        ease_in_out_cubic(HALF) == HALF,
{
    assert(1_000_000int * 1_000_000 * 1_000_000 == 1_000_000_000_000_000_000) by (nonlinear_arith);
}

/// Point symmetry about the midpoint: the eased values of `t` and `1 - t`
/// add up to one, exactly, for every `t` in `[0, ONE]`.
pub proof fn lemma_ease_point_symmetry(t: Fixed)
    requires
        0 <= t <= ONE,
    ensures
        ease_in_out_cubic(t) + ease_in_out_cubic((ONE - t) as Fixed) == ONE,
{
    let c = t as int;
    let m = ONE - c;
    if c < HALF {
        let x = c * c * c;
        lemma_ease_first_half(c);
        lemma_ease_second_half(m);
        assert((2 * ONE - 2 * m) * (2 * ONE - 2 * m) * (2 * ONE - 2 * m) == 8 * x) by (nonlinear_arith)
            requires
                m == ONE - c,
                x == c * c * c,
        ;
        assert((8 * x) / 2_000_000_000_000 == (4 * x) / 1_000_000_000_000);
    } else if c > HALF {
        let x = m * m * m;
        lemma_ease_first_half(m);
        lemma_ease_second_half(c);
        assert((2 * ONE - 2 * c) * (2 * ONE - 2 * c) * (2 * ONE - 2 * c) == 8 * x) by (nonlinear_arith)
            requires
                m == ONE - c,
                x == m * m * m,
        ;
        assert((8 * x) / 2_000_000_000_000 == (4 * x) / 1_000_000_000_000);
    } else {
        lemma_ease_fixed_points();
    }
}

/// Linear interpolation between two values; `t` is not clamped.
pub fn lerp_f32(a: Fixed, b: Fixed, t: Fixed) -> (r: Fixed)
    ensures
        r == fx_lerp(a, b, t),
{
    fx_lerp(a, b, t)
}

/// Channel-wise interpolation between two colours; `t` is not clamped.
pub open spec fn lerp_color_spec(a: Srgba, b: Srgba, t: Fixed) -> Srgba {
    Srgba {
        red: fx_lerp(a.red, b.red, t),
        green: fx_lerp(a.green, b.green, t),
        blue: fx_lerp(a.blue, b.blue, t),
        alpha: fx_lerp(a.alpha, b.alpha, t),
    }
}

/// Channel-wise interpolation between two colours in the display space.
#[verifier::when_used_as_spec(lerp_color_spec)]
pub fn lerp_color(a: Srgba, b: Srgba, t: Fixed) -> (r: Srgba)
    ensures
        r == lerp_color_spec(a, b, t),
{
    Srgba {
        red: fx_lerp(a.red, b.red, t),
        green: fx_lerp(a.green, b.green, t),
        blue: fx_lerp(a.blue, b.blue, t),
        alpha: fx_lerp(a.alpha, b.alpha, t),
    }
}

impl ActTimings {
    /// The start of `act` according to these timings.
    pub open spec fn start_of(&self, act: Act) -> Fixed {
        self.act_boundaries_seconds@[act.index() as int]
    }

    /// The end of `act` according to these timings.
    pub open spec fn end_of(&self, act: Act) -> Fixed {
        self.act_boundaries_seconds@[act.index() + 1]
    }

    /// The share of `act` that has passed at `elapsed`: the time since the
    /// act's start over the act's duration, clamped to `[0, ONE]`; `ONE`
    /// for an act without duration.
    pub open spec fn act_progress_at(&self, act: Act, elapsed: Fixed) -> Fixed {
        let duration = fx_sub(self.end_of(act), self.start_of(act));
        if duration > 0 {
            fx_clamp(fx_div(fx_sub(elapsed, self.start_of(act)), duration), 0, ONE)
        } else {
            ONE
        }
    }

    /// The duration of a transition in seconds.
    pub open spec fn transition_seconds(&self) -> Fixed {
        fx_div(self.transition_duration_ms, 1_000_000_000)
    }

    /// The share of the transition into `act` that has passed at `elapsed`:
    /// the time since the act's start over the transition duration, clamped
    /// to `[0, ONE]`; `ONE` for a transition without duration.
    pub open spec fn transition_progress_at(&self, act: Act, elapsed: Fixed) -> Fixed {
        if self.transition_seconds() > 0 {
            fx_clamp(
                fx_div(fx_sub(elapsed, self.start_of(act)), self.transition_seconds()),
                0,
                ONE,
            )
        } else {
            ONE
        }
    }
}

impl ActState {
    /// The state at the start of the timeline.
    pub open spec fn initial() -> ActState {
        ActState {
            current_act: Act::Emergence,
            act_progress: 0,
            total_elapsed_seconds: 0,
            is_transitioning: false,
            transition_progress: 0,
        }
    }

    /// Whether advancing by `delta_seconds` runs past the end of the
    /// timeline and its grace period. Reaching that instant exactly does
    /// not count; the time has to exceed it.
    pub open spec fn wraps_after(self, delta_seconds: Fixed) -> bool {
        fx_add(self.total_elapsed_seconds, delta_seconds) > TOTAL_DURATION_SECONDS
            + LOOP_GRACE_SECONDS
    }

    /// The state with time advanced by `delta_seconds`, started over if the
    /// timeline ran out, and nothing else updated yet.
    pub open spec fn with_time_advanced(self, delta_seconds: Fixed) -> ActState {
        if self.wraps_after(delta_seconds) {
            ActState::initial()
        } else {
            ActState {
                total_elapsed_seconds: fx_add(self.total_elapsed_seconds, delta_seconds),
                ..self
            }
        }
    }

    /// The state after one tick of `delta_seconds`.
    pub open spec fn ticked(self, delta_seconds: Fixed, timings: &ActTimings) -> ActState {
        let base = self.with_time_advanced(delta_seconds);
        let elapsed = base.total_elapsed_seconds;
        let act = Act::from_elapsed_seconds(elapsed);
        let blending = act != base.current_act || base.is_transitioning;
        let reached = timings.transition_progress_at(act, elapsed);
        ActState {
            current_act: act,
            act_progress: timings.act_progress_at(act, elapsed),
            total_elapsed_seconds: elapsed,
            is_transitioning: blending && reached < ONE,
            transition_progress: if blending {
                reached
            } else {
                base.transition_progress
            },
        }
    }

    /// What one tick of `delta_seconds` reports.
    pub open spec fn tick_events(self, delta_seconds: Fixed, timings: &ActTimings) -> ActEvents {
        let base = self.with_time_advanced(delta_seconds);
        let elapsed = base.total_elapsed_seconds;
        let act = Act::from_elapsed_seconds(elapsed);
        let blending = act != base.current_act || base.is_transitioning;
        let reached = timings.transition_progress_at(act, elapsed);
        ActEvents {
            wrapped: self.wraps_after(delta_seconds),
            started: if act != base.current_act && !base.is_transitioning {
                Some(ActTransitionStarted { from: base.current_act, to: act })
            } else {
                None
            },
            completed: if blending && reached >= ONE {
                Some(ActTransitionCompleted { act })
            } else {
                None
            },
        }
    }
}

/// Advances the act clock by `delta_seconds`.
///
/// Time moves on; past the end of the timeline plus its grace period the
/// state starts over at the first act and the tick reports a wrap. The act
/// is looked up from the elapsed time and becomes the current act at once,
/// also while the blend into it is still running. Progress within the act
/// and progress of the transition are measured from the act's boundary, so
/// a transition lasts exactly the configured duration whatever the frame
/// rate. A transition is reported as started on the tick that crosses the
/// boundary and as completed on the tick on which its progress reaches one.
pub fn update_act_progression(
    delta_seconds: Fixed,
    act_state: &mut ActState,
    act_timings: &ActTimings,
) -> (events: ActEvents)
    ensures
        *final(act_state) == old(act_state).ticked(delta_seconds, act_timings),
        events == old(act_state).tick_events(delta_seconds, act_timings),
        final(act_state).current_act == Act::from_elapsed_seconds(
            final(act_state).total_elapsed_seconds,
        ),
        0 <= final(act_state).act_progress <= ONE,
        final(act_state).is_transitioning ==> 0 <= final(act_state).transition_progress < ONE,
        events.completed is Some ==> !final(act_state).is_transitioning && final(act_state).transition_progress == ONE,
        events.wrapped ==> final(act_state).total_elapsed_seconds == 0 && final(act_state).current_act == Act::Emergence,
{
    let mut wrapped = false;
    let mut started: Option<ActTransitionStarted> = None;
    let mut completed: Option<ActTransitionCompleted> = None;

    act_state.total_elapsed_seconds = fx_add(act_state.total_elapsed_seconds, delta_seconds);
    if act_state.total_elapsed_seconds > TOTAL_DURATION_SECONDS + LOOP_GRACE_SECONDS {
        wrapped = true;
        act_state.total_elapsed_seconds = 0;
        act_state.current_act = Act::Emergence;
        act_state.act_progress = 0;
        act_state.is_transitioning = false;
        act_state.transition_progress = 0;
    }
    let elapsed = act_state.total_elapsed_seconds;
    let new_act = Act::from_elapsed_seconds(elapsed);
    let act_index: usize = new_act.index();
    let act_start = act_timings.act_boundaries_seconds[act_index];
    let act_end = act_timings.act_boundaries_seconds[act_index + 1];
    let act_duration = fx_sub(act_end, act_start);

    if act_duration > 0 {
        act_state.act_progress = fx_clamp(fx_div(fx_sub(elapsed, act_start), act_duration), 0, ONE);
    } else {
        act_state.act_progress = ONE;
    }
    let transition_seconds = fx_div(act_timings.transition_duration_ms, 1_000_000_000);
    let reached = if transition_seconds > 0 {
        fx_clamp(fx_div(fx_sub(elapsed, act_start), transition_seconds), 0, ONE)
    } else {
        ONE
    };

    if new_act != act_state.current_act {
        if !act_state.is_transitioning {
            act_state.is_transitioning = true;
            started = Some(ActTransitionStarted { from: act_state.current_act, to: new_act });
        }
        act_state.transition_progress = reached;
        act_state.current_act = new_act;
        if reached >= ONE {
            act_state.is_transitioning = false;
            completed = Some(ActTransitionCompleted { act: new_act });
        }
    } else if act_state.is_transitioning {
        act_state.transition_progress = reached;
        if reached >= ONE {
            act_state.is_transitioning = false;
            completed = Some(ActTransitionCompleted { act: new_act });
        }
    }
    ActEvents { wrapped, started, completed }
}

/// The completion of a transition is reported once: on the tick after the
/// one that reported it, nothing is reported as long as the timeline stays
/// in the same act and does not start over.
pub proof fn lemma_completion_is_reported_once(
    state: ActState,
    first_delta: Fixed,
    second_delta: Fixed,
    timings: &ActTimings,
)
    requires
        state.tick_events(first_delta, timings).completed is Some,
        !state.ticked(first_delta, timings).wraps_after(second_delta),
        Act::from_elapsed_seconds(
            state.ticked(first_delta, timings).ticked(second_delta, timings).total_elapsed_seconds,
        ) == state.ticked(first_delta, timings).current_act,
    ensures
        state.ticked(first_delta, timings).tick_events(second_delta, timings) == (ActEvents {
            wrapped: false,
            started: None,
            completed: None,
        }),
        !state.ticked(first_delta, timings).ticked(second_delta, timings).is_transitioning,
{
}

/// The act that a transition into `act` blends from: the act before it, or
/// `act` itself for the first act.
pub open spec fn blend_source(act: Act) -> Act {
    match act.previous() {
        Some(previous) => previous,
        None => act,
    }
}

/// How far the values of the current act have arrived: the eased
/// transition progress during a transition, one outside of it.
pub open spec fn blend_factor(state: ActState) -> Fixed {
    if state.is_transitioning {
        ease_in_out_cubic(state.transition_progress)
    } else {
        ONE
    }
}

/// The act whose discrete values (behavior, interaction mode) are in force:
/// the source act during the first half of the eased blend, the current
/// act otherwise.
pub open spec fn discrete_act(state: ActState) -> Act {
    if blend_factor(state) < HALF {
        blend_source(state.current_act)
    } else {
        state.current_act
    }
}

/// The value of a per-act table for a state: the current act's entry
/// outside a transition, the eased blend from the source act's entry to the
/// current act's during one.
pub open spec fn blended_entry(table: Seq<Fixed>, state: ActState) -> Fixed {
    if state.is_transitioning {
        fx_lerp(
            table[blend_source(state.current_act).index() as int],
            table[state.current_act.index() as int],
            blend_factor(state),
        )
    } else {
        table[state.current_act.index() as int]
    }
}

/// The colour of a per-act colour table for a state, blended like
/// [`blended_entry`].
pub open spec fn blended_color(table: Seq<Srgba>, state: ActState) -> Srgba {
    if state.is_transitioning {
        lerp_color(
            table[blend_source(state.current_act).index() as int],
            table[state.current_act.index() as int],
            blend_factor(state),
        )
    } else {
        table[state.current_act.index() as int]
    }
}

/// The act-dependent values that belong to a state.
pub open spec fn interpolated_for(
    state: ActState,
    gradients: &BackgroundGradients,
) -> InterpolatedActValues {
    InterpolatedActValues {
        background_color_start: blended_color(gradients.gradient_starts@, state),
        background_color_end: blended_color(gradients.gradient_ends@, state),
        particle_behavior: discrete_act(state).default_behavior(),
        interaction_mode: discrete_act(state).default_interaction_mode(),
        saturation_multiplier: blended_entry(ACT_SATURATION@, state),
        density_target: blended_entry(ACT_DENSITY@, state),
    }
}

/// Reads one entry of a per-act table, blended for the state.
fn blend_entry(table: &[Fixed; 5], act_state: &ActState) -> (r: Fixed)
    ensures
        r == blended_entry(table@, *act_state),
{
    let act_index: usize = act_state.current_act.index();
    if act_state.is_transitioning {
        let source = act_state.current_act.previous().unwrap_or(act_state.current_act);
        let t = ease_in_out_cubic(act_state.transition_progress);
        fx_lerp(table[source.index()], table[act_index], t)
    } else {
        table[act_index]
    }
}

/// Reads one entry of a per-act colour table, blended for the state.
fn blend_color(table: &[Srgba; 5], act_state: &ActState) -> (r: Srgba)
    ensures
        r == blended_color(table@, *act_state),
{
    let act_index: usize = act_state.current_act.index();
    if act_state.is_transitioning {
        let source = act_state.current_act.previous().unwrap_or(act_state.current_act);
        let t = ease_in_out_cubic(act_state.transition_progress);
        lerp_color(table[source.index()], table[act_index], t)
    } else {
        table[act_index]
    }
}

/// Derives the act-dependent values from the act state.
///
/// Outside a transition every value is the current act's own. During a
/// transition the saturation, the density target and both background
/// colours are blended from the previous act to the current one by the
/// eased transition progress; the behavior and the interaction mode are
/// those of the previous act while the eased progress is below one half and
/// those of the current act from there on. The background's gradient
/// follows the blended colours; its pulse is left alone.
pub fn interpolate_act_values(
    act_state: &ActState,
    background_gradients: &BackgroundGradients,
    interpolated_values: &mut InterpolatedActValues,
    current_interaction_mode: &mut CurrentInteractionMode,
    current_background: &mut CurrentBackground,
)
    ensures
        *final(interpolated_values) == interpolated_for(*act_state, background_gradients),
        final(current_interaction_mode).mode == final(interpolated_values).interaction_mode,
        *final(current_background) == (CurrentBackground {
            gradient_start: final(interpolated_values).background_color_start,
            gradient_end: final(interpolated_values).background_color_end,
            pulse_intensity: old(current_background).pulse_intensity,
        }),
{
    let current_act = act_state.current_act;
    interpolated_values.saturation_multiplier = blend_entry(&ACT_SATURATION, act_state);
    interpolated_values.density_target = blend_entry(&ACT_DENSITY, act_state);
    interpolated_values.background_color_start =
        blend_color(&background_gradients.gradient_starts, act_state);
    interpolated_values.background_color_end =
        blend_color(&background_gradients.gradient_ends, act_state);
    current_background.gradient_start = interpolated_values.background_color_start;
    current_background.gradient_end = interpolated_values.background_color_end;

    let source = current_act.previous().unwrap_or(current_act);
    let discrete = if act_state.is_transitioning && ease_in_out_cubic(
        act_state.transition_progress,
    ) < HALF {
        source
    } else {
        current_act
    };
    interpolated_values.particle_behavior = discrete.default_behavior();
    interpolated_values.interaction_mode = discrete.default_interaction_mode();
    current_interaction_mode.mode = discrete.default_interaction_mode();
}

/// The post-processing settings that belong to a state: the three
/// act-dependent values blended, the others as they were.
pub open spec fn post_process_for(
    state: ActState,
    settings: PostProcessSettings,
) -> PostProcessSettings {
    PostProcessSettings {
        chromatic_aberration_strength: blended_entry(ACT_CHROMATIC_ABERRATION@, state),
        vignette_intensity: blended_entry(ACT_VIGNETTE@, state),
        bloom_intensity: blended_entry(ACT_BLOOM@, state),
        ..settings
    }
}

/// Sets chromatic aberration, vignette and bloom intensity for the act
/// state: the current act's values outside a transition, the eased blend
/// from the previous act's values during one.
pub fn update_post_process_for_act(act_state: &ActState, post_process: &mut PostProcessSettings)
    ensures
        *final(post_process) == post_process_for(*act_state, *old(post_process)),
{
    post_process.chromatic_aberration_strength = blend_entry(&ACT_CHROMATIC_ABERRATION, act_state);
    post_process.vignette_intensity = blend_entry(&ACT_VIGNETTE, act_state);
    post_process.bloom_intensity = blend_entry(&ACT_BLOOM, act_state);
}

} // verus!
