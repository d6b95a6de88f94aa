//! Pointer, touch and keyboard interaction: gesture recognition, the
//! pointer's influence on particles, and the transient explosion and
//! hyperspace effects.

use vstd::prelude::*;
use crate::color::Srgba;
use crate::components::{MouseInfluence, ParticleBundle, ParticleMotion, ParticleVisual};
use crate::fixed::{
    Fixed, fx_add, fx_clamp, fx_div, fx_lerp, fx_max, fx_min, fx_mul, fx_sub, lemma_mul_by_fraction,
    ONE,
};
use crate::particle::{ParticleArena, lemma_same_occupancy_keeps_wf};
use crate::resources::{InteractionConfig, MouseState};
use crate::types::InteractionMode;
use crate::vector::Vec2;
use vstd::arithmetic::div_mod::lemma_div_is_ordered;

verus! {

/// Cooldown of the breath pulse in seconds.
pub const BREATH_PULSE_COOLDOWN_SECONDS: Fixed = 400_000;

/// Duration of the gentle fade before exit in seconds.
pub const GENTLE_FADE_DURATION_SECONDS: Fixed = 3_000_000;

/// Base force of the attract mode.
pub const ATTRACT_FORCE_BASE: Fixed = 80_000_000;

/// Base force of the disperse mode.
pub const DISPERSE_FORCE_BASE: Fixed = 100_000_000;

/// Upward bias of the disperse mode.
pub const DISPERSE_UPWARD_BIAS: Fixed = 30_000_000;

/// Saturation boost of the intensify mode.
pub const INTENSIFY_SATURATION_BOOST: Fixed = 300_000;

/// Scale boost of the intensify mode.
pub const INTENSIFY_SCALE_BOOST: Fixed = 150_000;

/// Base force of the ripple mode.
pub const RIPPLE_FORCE_BASE: Fixed = 25_000_000;

/// Pointer speed at or below which the pointer counts as still.
pub const VELOCITY_THRESHOLD_LOW: Fixed = 50_000_000;

/// Pointer speed at or above which its influence is full.
pub const VELOCITY_THRESHOLD_HIGH: Fixed = 400_000_000;

/// Impulse of an explosion of strength one at its center.
pub const EXPLOSION_FORCE: Fixed = 800_000_000;

/// Reach of an explosion.
pub const EXPLOSION_RADIUS: Fixed = 400_000_000;

/// Acceleration of the hyperspace effect.
pub const HYPERSPACE_ACCELERATION: Fixed = 2_000_000_000;

/// Duration of the hyperspace effect in seconds.
pub const HYPERSPACE_DURATION: Fixed = 1_500_000;

/// Longest touch that still counts as a tap, in seconds.
pub const TAP_MAX_DURATION: Fixed = 300_000;

/// Farthest a touch may move and still count as a tap or hold, in pixels.
pub const TAP_MAX_DISTANCE: Fixed = 30_000_000;

/// Shortest press that counts as a hold, in seconds.
pub const HOLD_MIN_DURATION: Fixed = 500_000;

/// Longest two-finger touch that still triggers hyperspace, in seconds.
pub const TWO_FINGER_MAX_DURATION: Fixed = 450_000;

/// A breath pulse was triggered.
#[derive(Clone, Copy, Debug, PartialEq, Eq, Structural)]
pub struct BreathPulse {
    /// Where the pulse starts.
    pub origin: Vec2,
    /// Strength from 0 to 1.
    pub strength: Fixed,
}

impl Default for BreathPulse {
    fn default() -> (r: BreathPulse)
        ensures
            r == (BreathPulse {
                origin: Vec2::zero(),
                strength: 1_000_000,
            }),
    {
        BreathPulse {
            origin: Vec2::zero(),
            strength: 1_000_000,
        }
    }
}

/// The graceful exit was requested.
#[derive(Clone, Copy, Debug, PartialEq, Eq, Structural)]
pub struct GentleFade {
    /// Duration of the fade in seconds.
    pub duration_seconds: Fixed,
}

impl Default for GentleFade {
    fn default() -> (r: GentleFade)
        ensures
            r == (GentleFade {
                duration_seconds: GENTLE_FADE_DURATION_SECONDS,
            }),
    {
        GentleFade {
            duration_seconds: GENTLE_FADE_DURATION_SECONDS,
        }
    }
}

/// An explosion pushes particles away from a point.
#[derive(Clone, Copy, Debug, PartialEq, Eq, Structural)]
pub struct ExplosionEvent {
    /// Center of the explosion.
    pub origin: Vec2,
    /// Multiplier of the impulse.
    pub strength: Fixed,
}

/// The hyperspace effect starts.
#[derive(Clone, Copy, Debug, PartialEq, Eq, Structural)]
pub struct HyperspaceJumpEvent {
    /// Point that the particles rush away from.
    pub vanishing_point: Vec2,
}

/// Time until the next breath pulse may fire.
#[derive(Clone, Copy, Debug, PartialEq, Eq, Structural)]
pub struct BreathPulseCooldown {
    /// Seconds of cooldown left.
    pub remaining_seconds: Fixed,
}

impl Default for BreathPulseCooldown {
    fn default() -> (r: BreathPulseCooldown)
        ensures
            r == (BreathPulseCooldown {
                remaining_seconds: 0,
            }),
    {
        BreathPulseCooldown {
            remaining_seconds: 0,
        }
    }
}

/// State of the graceful exit.
#[derive(Clone, Copy, Debug, PartialEq, Eq, Structural)]
pub struct GentleFadeState {
    /// Whether the fade is running.
    pub is_active: bool,
    /// Seconds until exit.
    pub remaining_seconds: Fixed,
    /// Duration of the whole fade.
    pub total_duration_seconds: Fixed,
}

impl Default for GentleFadeState {
    fn default() -> (r: GentleFadeState)
        ensures
            r == (GentleFadeState {
                is_active: false,
                remaining_seconds: 0,
                total_duration_seconds: GENTLE_FADE_DURATION_SECONDS,
            }),
    {
        GentleFadeState {
            is_active: false,
            remaining_seconds: 0,
            total_duration_seconds: GENTLE_FADE_DURATION_SECONDS,
        }
    }
}

/// State of the hyperspace effect.
#[derive(Clone, Copy, Debug, PartialEq, Eq, Structural)]
pub struct HyperspaceState {
    /// Whether the effect is running.
    pub is_active: bool,
    /// Point that the particles rush away from.
    pub vanishing_point: Vec2,
    /// Seconds until the effect ends.
    pub remaining_seconds: Fixed,
    /// Duration of the whole effect.
    pub total_duration: Fixed,
}

impl Default for HyperspaceState {
    fn default() -> (r: HyperspaceState)
        ensures
            r == (HyperspaceState {
                is_active: false,
                vanishing_point: Vec2::zero(),
                remaining_seconds: 0,
                total_duration: HYPERSPACE_DURATION,
            }),
    {
        HyperspaceState {
            is_active: false,
            vanishing_point: Vec2::zero(),
            remaining_seconds: 0,
            total_duration: HYPERSPACE_DURATION,
        }
    }
}

/// What is known about the touches of the current gesture.
#[derive(Clone, Copy, Debug, PartialEq, Eq)]
pub struct TouchState {
    /// Id of the first finger down.
    pub primary_touch_id: Option<u64>,
    /// Where the first finger went down, in screen coordinates.
    pub primary_start_pos: Vec2,
    /// Where the first finger is, in screen coordinates.
    pub primary_current_pos: Vec2,
    /// When the first finger went down, in seconds.
    pub primary_start_time: Fixed,
    /// Id of the second finger down.
    pub secondary_touch_id: Option<u64>,
    /// When the second finger went down, in seconds.
    pub secondary_start_time: Fixed,
    /// Number of fingers down on this tick.
    pub touch_count: usize,
    /// Largest number of fingers down during the gesture.
    pub peak_touch_count: usize,
    /// When two or more fingers were first down, in seconds.
    pub multi_touch_start_time: Fixed,
    /// Whether the hold of this press has fired.
    pub hold_triggered: bool,
    /// Whether the two-finger gesture has fired.
    pub two_finger_triggered: bool,
}

impl Default for TouchState {
    fn default() -> (r: TouchState)
        ensures
            r == (TouchState {
                primary_touch_id: None,
                primary_start_pos: Vec2::zero(),
                primary_current_pos: Vec2::zero(),
                primary_start_time: 0,
                secondary_touch_id: None,
                secondary_start_time: 0,
                touch_count: 0,
                peak_touch_count: 0,
                multi_touch_start_time: 0,
                hold_triggered: false,
                two_finger_triggered: false,
            }),
    {
        TouchState {
            primary_touch_id: None,
            primary_start_pos: Vec2::zero(),
            primary_current_pos: Vec2::zero(),
            primary_start_time: 0,
            secondary_touch_id: None,
            secondary_start_time: 0,
            touch_count: 0,
            peak_touch_count: 0,
            multi_touch_start_time: 0,
            hold_triggered: false,
            two_finger_triggered: false,
        }
    }
}

/// The progress of a countdown from 0 (just started) to 1 (done): one minus
/// the share of the time that is left, clamped; zero while the countdown is
/// not running or has no duration.
pub open spec fn countdown_progress_spec(is_active: bool, remaining: Fixed, total: Fixed) -> Fixed {
    if !is_active || total <= 0 {
        0
    } else {
        fx_sub(ONE, fx_clamp(fx_div(remaining, total), 0, ONE))
    }
}

/// The progress of a countdown from 0 (just started) to 1 (done): one minus
/// the share of the time that is left, clamped; zero while the countdown is
/// not running or has no duration.
#[verifier::when_used_as_spec(countdown_progress_spec)]
pub fn countdown_progress(is_active: bool, remaining: Fixed, total: Fixed) -> (r: Fixed)
    ensures
        r == countdown_progress_spec(is_active, remaining, total),
{
    if !is_active || total <= 0 {
        0
    } else {
        fx_sub(ONE, fx_clamp(fx_div(remaining, total), 0, ONE))
    }
}

impl GentleFadeState {
    /// The fade progress from 0 (just started) to 1 (complete).
    pub open spec fn progress_spec(&self) -> Fixed {
        countdown_progress(self.is_active, self.remaining_seconds, self.total_duration_seconds)
    }

    /// The fade progress from 0 (just started) to 1 (complete); zero while
    /// the fade is not running.
    #[verifier::when_used_as_spec(progress_spec)]
    pub fn progress(&self) -> (r: Fixed)
        ensures
            r == self.progress_spec(),
    {
        countdown_progress(self.is_active, self.remaining_seconds, self.total_duration_seconds)
    }
}

impl HyperspaceState {
    /// The effect progress from 0 (just started) to 1 (complete).
    pub open spec fn progress_spec(&self) -> Fixed {
        countdown_progress(self.is_active, self.remaining_seconds, self.total_duration)
    }

    /// The effect progress from 0 (just started) to 1 (complete); zero
    /// while the effect is not running.
    #[verifier::when_used_as_spec(progress_spec)]
    pub fn progress(&self) -> (r: Fixed)
        ensures
            r == self.progress_spec(),
    {
        countdown_progress(self.is_active, self.remaining_seconds, self.total_duration)
    }
}

/// Quadratic falloff of influence with distance: `1 - (distance /
/// max_distance)^2`, never below zero. The influence is zero at or beyond
/// `max_distance`, for a reach that is not positive, and for a negative
/// distance.
pub open spec fn quadratic_falloff_spec(distance: Fixed, max_distance: Fixed) -> Fixed {
    if distance >= max_distance || max_distance <= 0 || distance < 0 {
        0
    } else {
        let normalized = fx_div(distance, max_distance);
        fx_max(fx_sub(ONE, fx_mul(normalized, normalized)), 0)
    }
}

/// Quadratic falloff of influence with distance: `1 - (distance /
/// max_distance)^2`, never below zero. The influence is zero at or beyond
/// `max_distance`, for a reach that is not positive, and for a negative
/// distance.
#[verifier::when_used_as_spec(quadratic_falloff_spec)]
pub fn quadratic_falloff(distance: Fixed, max_distance: Fixed) -> (r: Fixed)
    ensures
        r == quadratic_falloff_spec(distance, max_distance),
        0 <= r <= ONE,
{
    if distance >= max_distance || max_distance <= 0 || distance < 0 {
        0
    } else {
        let normalized = fx_div(distance, max_distance);
        fx_max(fx_sub(ONE, fx_mul(normalized, normalized)), 0)
    }
}

/// The landmarks of the quadratic falloff for a reach of twice `half`: full
/// influence at the source, three quarters at half the reach, none at the
/// reach and none beyond it.
pub proof fn lemma_falloff_landmarks(half: Fixed, beyond: Fixed)
    requires
        0 < half <= i64::MAX / 2,
        beyond >= 2 * half,
    ensures
        quadratic_falloff(0, (2 * half) as Fixed) == ONE,
        quadratic_falloff(half, (2 * half) as Fixed) == 750_000,
        quadratic_falloff((2 * half) as Fixed, (2 * half) as Fixed) == 0,
        quadratic_falloff(beyond, (2 * half) as Fixed) == 0,
{
    let reach = (2 * half) as Fixed;
    assert((half * 1_000_000) / (reach as int) == 500_000) by (nonlinear_arith)
        requires
            half > 0,
            reach == 2 * half,
    ;
    assert(0int / (reach as int) == 0) by (nonlinear_arith)
        requires
            reach > 0,
    ;
    assert(500_000int * 500_000 == 250_000_000_000) by (nonlinear_arith);
    assert(fx_div(0, reach) == 0);
    assert(fx_div(half, reach) == 500_000);
    assert(fx_mul(500_000, 500_000) == 250_000);
}

/// Influence weakens with distance: within one reach, a particle farther
/// from the source never has the stronger influence.
pub proof fn lemma_falloff_weakens_with_distance(near: Fixed, far: Fixed, reach: Fixed)
    requires
        0 <= near <= far,
    ensures
        quadratic_falloff(near, reach) >= quadratic_falloff(far, reach),
{
    if far < reach {
        let n = fx_div(near, reach);
        let f = fx_div(far, reach);
        assert(near * 1_000_000 <= far * 1_000_000 < reach * 1_000_000);
        lemma_div_is_ordered(near * 1_000_000, far * 1_000_000, reach as int);
        lemma_div_is_ordered(far * 1_000_000, reach * 1_000_000, reach as int);
        lemma_div_is_ordered(0, near * 1_000_000, reach as int);
        assert((reach * 1_000_000) / (reach as int) == 1_000_000) by (nonlinear_arith)
            requires
                reach > 0,
        ;
        assert(0int / (reach as int) == 0) by (nonlinear_arith)
            requires
                reach > 0,
        ;
        assert(0 <= n <= f <= 1_000_000);
        assert(0 <= n * n <= f * f <= 1_000_000_000_000) by (nonlinear_arith)
            requires
                0 <= n <= f <= 1_000_000,
        ;
    }
}

/// Interaction strength of a pointer speed: zero up to the low threshold,
/// one from the high threshold, linear in between.
pub open spec fn speed_to_strength_spec(speed: Fixed) -> Fixed {
    if speed <= VELOCITY_THRESHOLD_LOW {
        0
    } else if speed >= VELOCITY_THRESHOLD_HIGH {
        ONE
    } else {
        fx_div(
            fx_sub(speed, VELOCITY_THRESHOLD_LOW),
            fx_sub(VELOCITY_THRESHOLD_HIGH, VELOCITY_THRESHOLD_LOW),
        )
    }
}

/// Interaction strength of a pointer speed: zero up to the low threshold,
/// one from the high threshold, linear in between.
#[verifier::when_used_as_spec(speed_to_strength_spec)]
pub fn speed_to_strength(speed: Fixed) -> (r: Fixed)
    ensures
        r == speed_to_strength_spec(speed),
{
    if speed <= VELOCITY_THRESHOLD_LOW {
        0
    } else if speed >= VELOCITY_THRESHOLD_HIGH {
        ONE
    } else {
        fx_div(
            fx_sub(speed, VELOCITY_THRESHOLD_LOW),
            fx_sub(VELOCITY_THRESHOLD_HIGH, VELOCITY_THRESHOLD_LOW),
        )
    }
}

/// Interaction strength of a pointer velocity, from its speed.
pub open spec fn velocity_to_strength_spec(velocity: Vec2) -> Fixed {
    speed_to_strength(velocity.length())
}

/// Interaction strength of a pointer velocity, from its speed.
#[verifier::when_used_as_spec(velocity_to_strength_spec)]
pub fn velocity_to_strength(velocity: Vec2) -> (r: Fixed)
    ensures
        r == velocity_to_strength_spec(velocity),
{
    speed_to_strength(velocity.length())
}

/// The impulse of an explosion at `distance` from its center:
/// `800 * strength * (1 - n)^2`, where `n` is the distance as a share of the
/// explosion radius, taken as at least one tenth.
pub open spec fn explosion_magnitude_spec(distance: Fixed, strength: Fixed) -> Fixed {
    let normalized = fx_max(fx_div(distance, EXPLOSION_RADIUS), 100_000);
    let nearness = fx_sub(ONE, normalized);
    fx_mul(fx_mul(EXPLOSION_FORCE, strength), fx_mul(nearness, nearness))
}

/// The impulse of an explosion at `distance` from its center:
/// `800 * strength * (1 - n)^2`, where `n` is the distance as a share of the
/// explosion radius, taken as at least one tenth.
#[verifier::when_used_as_spec(explosion_magnitude_spec)]
pub fn explosion_magnitude(distance: Fixed, strength: Fixed) -> (r: Fixed)
    ensures
        r == explosion_magnitude_spec(distance, strength),
{
    let normalized = fx_max(fx_div(distance, EXPLOSION_RADIUS), 100_000);
    let nearness = fx_sub(ONE, normalized);
    fx_mul(fx_mul(EXPLOSION_FORCE, strength), fx_mul(nearness, nearness))
}

/// The velocity change that an explosion gives a particle at `offset` from
/// its center: [`explosion_magnitude`] along the unit vector that points from
/// the center to the particle. Particles at or beyond the explosion radius
/// and particles within one unit of the center receive nothing.
pub open spec fn explosion_impulse_spec(offset: Vec2, strength: Fixed) -> Vec2 {
    let distance = offset.length();
    if distance >= EXPLOSION_RADIUS || distance < ONE {
        Vec2::zero()
    } else {
        offset.divided(distance).scaled(explosion_magnitude(distance, strength))
    }
}

/// The velocity change that an explosion gives a particle at `offset` from
/// its center: [`explosion_magnitude`] along the unit vector that points from
/// the center to the particle. Particles at or beyond the explosion radius
/// and particles within one unit of the center receive nothing.
#[verifier::when_used_as_spec(explosion_impulse_spec)]
pub fn explosion_impulse(offset: Vec2, strength: Fixed) -> (r: Vec2)
    ensures
        r == explosion_impulse_spec(offset, strength),
{
    let distance = offset.length();
    if distance >= EXPLOSION_RADIUS || distance < ONE {
        Vec2::zero()
    } else {
        offset.divided(distance).scaled(explosion_magnitude(distance, strength))
    }
}

/// The particle after an explosion.
///
/// An active particle inside the explosion radius and at least one unit from
/// the center receives [`explosion_impulse`] on its velocity, gains bloom in
/// proportion to its nearness, and flashes toward a warm white: red by the
/// full flash, green by eight tenths and blue by three tenths of it, each
/// capped at one. Every other particle is unchanged.
pub open spec fn exploded_spec(p: ParticleBundle, event: ExplosionEvent) -> ParticleBundle {
    let offset = p.transform.translation.minus(event.origin);
    let distance = offset.length();
    if !p.state.active || distance >= EXPLOSION_RADIUS || distance < ONE {
        p
    } else {
        let nearness = fx_sub(ONE, fx_max(fx_div(distance, EXPLOSION_RADIUS), 100_000));
        let flash = fx_mul(300_000, nearness);
        let color = p.visual.current_color;
        ParticleBundle {
            motion: ParticleMotion {
                velocity: p.motion.velocity.plus(explosion_impulse(offset, event.strength)),
                ..p.motion
            },
            visual: ParticleVisual {
                bloom_contribution: fx_min(
                    fx_add(p.visual.bloom_contribution, fx_mul(500_000, nearness)),
                    ONE,
                ),
                current_color: Srgba {
                    red: fx_min(fx_add(color.red, flash), ONE),
                    green: fx_min(fx_add(color.green, fx_mul(flash, 800_000)), ONE),
                    blue: fx_min(fx_add(color.blue, fx_mul(flash, 300_000)), ONE),
                    alpha: color.alpha,
                },
                ..p.visual
            },
            ..p
        }
    }
}

/// The particle after an explosion.
///
/// An active particle inside the explosion radius and at least one unit from
/// the center receives [`explosion_impulse`] on its velocity, gains bloom in
/// proportion to its nearness, and flashes toward a warm white: red by the
/// full flash, green by eight tenths and blue by three tenths of it, each
/// capped at one. Every other particle is unchanged.
#[verifier::when_used_as_spec(exploded_spec)]
pub fn exploded(p: ParticleBundle, event: ExplosionEvent) -> (r: ParticleBundle)
    ensures
        r == exploded_spec(p, event),
{
    let offset = p.transform.translation.minus(event.origin);
    let distance = offset.length();
    if !p.state.active || distance >= EXPLOSION_RADIUS || distance < ONE {
        p
    } else {
        let nearness = fx_sub(ONE, fx_max(fx_div(distance, EXPLOSION_RADIUS), 100_000));
        let flash = fx_mul(300_000, nearness);
        let color = p.visual.current_color;
        ParticleBundle {
            motion: ParticleMotion {
                velocity: p.motion.velocity.plus(explosion_impulse(offset, event.strength)),
                ..p.motion
            },
            visual: ParticleVisual {
                bloom_contribution: fx_min(
                    fx_add(p.visual.bloom_contribution, fx_mul(500_000, nearness)),
                    ONE,
                ),
                current_color: Srgba {
                    red: fx_min(fx_add(color.red, flash), ONE),
                    green: fx_min(fx_add(color.green, fx_mul(flash, 800_000)), ONE),
                    blue: fx_min(fx_add(color.blue, fx_mul(flash, 300_000)), ONE),
                    alpha: color.alpha,
                },
                ..p.visual
            },
            ..p
        }
    }
}

/// Applies one explosion to every particle, as [`exploded`] describes.
pub fn apply_explosion(arena: &mut ParticleArena, event: &ExplosionEvent)
    ensures
        final(arena).pool == old(arena).pool,
        final(arena).particles@.len() == old(arena).particles@.len(),
        forall|i: int|
            0 <= i < old(arena).particles@.len() ==> #[trigger] final(arena).particles@[i]
                == exploded(old(arena).particles@[i], *event),
        old(arena).wf() ==> final(arena).wf(),
{
    let count: usize = arena.particles.len();
    let mut i: usize = 0;
    while i < count
        invariant
            i <= count,
            count == arena.particles@.len(),
            count == old(arena).particles@.len(),
            arena.pool == old(arena).pool,
            forall|j: int|
                0 <= j < i ==> #[trigger] arena.particles@[j] == exploded(old(arena).particles@[j], *event),
            forall|j: int| i <= j < count ==> arena.particles@[j] == old(arena).particles@[j],
        decreases count - i,
    {
        let stepped = exploded(arena.particles[i], *event);
        arena.particles[i] = stepped;
        i = i + 1;
    }
    proof {
        if old(arena).wf() {
            lemma_same_occupancy_keeps_wf(old(arena), arena);
        }
    }
}

/// The particle after one tick of the hyperspace effect at `progress`.
///
/// An active particle at least one unit from the vanishing point is pushed
/// away from it: its velocity grows by the hyperspace acceleration times
/// `1 + 8 progress^2` times its distance as a share of 400 units, clamped to
/// `[0.3, 3]`, times the tick duration. Its drag becomes 0.9995, its colour
/// shifts toward a bluish white with the progress, its bloom rises from 0.6
/// toward 1, its opacity becomes one and its scale grows by up to three
/// tenths per tick, capped at three. Every other particle is unchanged.
pub open spec fn warped_spec(p: ParticleBundle, vanishing_point: Vec2, progress: Fixed, delta_seconds: Fixed) -> ParticleBundle {
    let offset = p.transform.translation.minus(vanishing_point);
    let distance = offset.length();
    if !p.state.active || distance < ONE {
        p
    } else {
        let ramp = fx_add(ONE, fx_mul(fx_mul(progress, progress), 8_000_000));
        let reach = fx_clamp(fx_div(distance, 400_000_000), 300_000, 3_000_000);
        let push = offset.divided(distance).scaled(HYPERSPACE_ACCELERATION).scaled(ramp).scaled(
            reach,
        ).scaled(delta_seconds);
        let streak = fx_mul(progress, 400_000);
        let color = p.visual.current_color;
        ParticleBundle {
            motion: ParticleMotion {
                velocity: p.motion.velocity.plus(push),
                drag: 999_500,
                ..p.motion
            },
            visual: ParticleVisual {
                current_color: Srgba {
                    red: fx_min(fx_add(fx_mul(color.red, 950_000), fx_mul(streak, 600_000)), ONE),
                    green: fx_min(fx_add(fx_mul(color.green, 950_000), fx_mul(streak, 800_000)), ONE),
                    blue: fx_min(fx_add(color.blue, streak), ONE),
                    alpha: color.alpha,
                },
                bloom_contribution: fx_min(fx_add(600_000, fx_mul(progress, 400_000)), ONE),
                opacity: ONE,
                scale: fx_min(
                    fx_mul(p.visual.scale, fx_add(ONE, fx_mul(progress, 300_000))),
                    3_000_000,
                ),
                ..p.visual
            },
            ..p
        }
    }
}

/// The particle after one tick of the hyperspace effect at `progress`.
///
/// An active particle at least one unit from the vanishing point is pushed
/// away from it: its velocity grows by the hyperspace acceleration times
/// `1 + 8 progress^2` times its distance as a share of 400 units, clamped to
/// `[0.3, 3]`, times the tick duration. Its drag becomes 0.9995, its colour
/// shifts toward a bluish white with the progress, its bloom rises from 0.6
/// toward 1, its opacity becomes one and its scale grows by up to three
/// tenths per tick, capped at three. Every other particle is unchanged.
#[verifier::when_used_as_spec(warped_spec)]
pub fn warped(p: ParticleBundle, vanishing_point: Vec2, progress: Fixed, delta_seconds: Fixed) -> (r: ParticleBundle)
    ensures
        r == warped_spec(p, vanishing_point, progress, delta_seconds),
{
    let offset = p.transform.translation.minus(vanishing_point);
    let distance = offset.length();
    if !p.state.active || distance < ONE {
        p
    } else {
        let ramp = fx_add(ONE, fx_mul(fx_mul(progress, progress), 8_000_000));
        let reach = fx_clamp(fx_div(distance, 400_000_000), 300_000, 3_000_000);
        let push = offset.divided(distance).scaled(HYPERSPACE_ACCELERATION).scaled(ramp).scaled(
            reach,
        ).scaled(delta_seconds);
        let streak = fx_mul(progress, 400_000);
        let color = p.visual.current_color;
        ParticleBundle {
            motion: ParticleMotion {
                velocity: p.motion.velocity.plus(push),
                drag: 999_500,
                ..p.motion
            },
            visual: ParticleVisual {
                current_color: Srgba {
                    red: fx_min(fx_add(fx_mul(color.red, 950_000), fx_mul(streak, 600_000)), ONE),
                    green: fx_min(fx_add(fx_mul(color.green, 950_000), fx_mul(streak, 800_000)), ONE),
                    blue: fx_min(fx_add(color.blue, streak), ONE),
                    alpha: color.alpha,
                },
                bloom_contribution: fx_min(fx_add(600_000, fx_mul(progress, 400_000)), ONE),
                opacity: ONE,
                scale: fx_min(
                    fx_mul(p.visual.scale, fx_add(ONE, fx_mul(progress, 300_000))),
                    3_000_000,
                ),
                ..p.visual
            },
            ..p
        }
    }
}

/// Applies one tick of the hyperspace effect at `progress` to every
/// particle, as [`warped`] describes.
pub fn warp_particles(arena: &mut ParticleArena, vanishing_point: Vec2, progress: Fixed, delta_seconds: Fixed)
    ensures
        final(arena).pool == old(arena).pool,
        final(arena).particles@.len() == old(arena).particles@.len(),
        forall|i: int|
            0 <= i < old(arena).particles@.len() ==> #[trigger] final(arena).particles@[i]
                == warped(old(arena).particles@[i], vanishing_point, progress, delta_seconds),
        old(arena).wf() ==> final(arena).wf(),
{
    let count: usize = arena.particles.len();
    let mut i: usize = 0;
    while i < count
        invariant
            i <= count,
            count == arena.particles@.len(),
            count == old(arena).particles@.len(),
            arena.pool == old(arena).pool,
            forall|j: int|
                0 <= j < i ==> #[trigger] arena.particles@[j] == warped(old(arena).particles@[j], vanishing_point, progress, delta_seconds),
            forall|j: int| i <= j < count ==> arena.particles@[j] == old(arena).particles@[j],
        decreases count - i,
    {
        let stepped = warped(arena.particles[i], vanishing_point, progress, delta_seconds);
        arena.particles[i] = stepped;
        i = i + 1;
    }
    proof {
        if old(arena).wf() {
            lemma_same_occupancy_keeps_wf(old(arena), arena);
        }
    }
}

impl HyperspaceState {
    /// The state after `delta_seconds`: a running effect loses that much
    /// time and stops once none is left.
    pub open spec fn ticked(self, delta_seconds: Fixed) -> HyperspaceState {
        if !self.is_active {
            self
        } else {
            HyperspaceState {
                remaining_seconds: fx_sub(self.remaining_seconds, delta_seconds),
                is_active: fx_sub(self.remaining_seconds, delta_seconds) > 0,
                ..self
            }
        }
    }

    /// The state of an effect that has just started at `vanishing_point`.
    pub open spec fn started_at(vanishing_point: Vec2) -> HyperspaceState {
        HyperspaceState {
            is_active: true,
            vanishing_point,
            remaining_seconds: HYPERSPACE_DURATION,
            total_duration: HYPERSPACE_DURATION,
        }
    }
}

/// What the wrap of the timeline does to the hyperspace effect.
///
/// When the timeline has started over, a hyperspace jump from the origin
/// is announced. The effect itself starts from the origin with its full
/// duration, unless one is already running: a running effect is never cut
/// short or restarted. Without a wrap nothing happens.
pub fn hyperspace_after_wrap(hyperspace_state: &mut HyperspaceState, wrapped: bool) -> (event:
    Option<HyperspaceJumpEvent>)
    ensures
        *final(hyperspace_state) == (if wrapped && !old(hyperspace_state).is_active {
            HyperspaceState::started_at(Vec2::zero())
        } else {
            *old(hyperspace_state)
        }),
        event == (if wrapped {
            Some(HyperspaceJumpEvent { vanishing_point: Vec2::zero() })
        } else {
            None
        }),
{
    if !wrapped {
        return None;
    }
    if !hyperspace_state.is_active {
        hyperspace_state.is_active = true;
        hyperspace_state.vanishing_point = Vec2::zero();
        hyperspace_state.remaining_seconds = HYPERSPACE_DURATION;
        hyperspace_state.total_duration = HYPERSPACE_DURATION;
    }
    Some(HyperspaceJumpEvent { vanishing_point: Vec2::zero() })
}

/// Runs one tick of the hyperspace effect.
///
/// Nothing happens while the effect is not running. Otherwise its
/// countdown is reduced by `delta_seconds`; when nothing is left the effect
/// stops without touching the particles, else every particle is [`warped`]
/// at the progress that the new countdown gives. Once started the effect
/// cannot be cut short.
pub fn apply_hyperspace(
    hyperspace_state: &mut HyperspaceState,
    arena: &mut ParticleArena,
    delta_seconds: Fixed,
)
    ensures
        *final(hyperspace_state) == old(hyperspace_state).ticked(delta_seconds),
        final(arena).pool == old(arena).pool,
        final(arena).particles@.len() == old(arena).particles@.len(),
        forall|i: int|
            0 <= i < old(arena).particles@.len() ==> #[trigger] final(arena).particles@[i] == (
            if final(hyperspace_state).is_active {
                warped(
                    old(arena).particles@[i],
                    final(hyperspace_state).vanishing_point,
                    final(hyperspace_state).progress(),
                    delta_seconds,
                )
            } else {
                old(arena).particles@[i]
            }),
        old(arena).wf() ==> final(arena).wf(),
{
    if !hyperspace_state.is_active {
        return ;
    }
    hyperspace_state.remaining_seconds = fx_sub(hyperspace_state.remaining_seconds, delta_seconds);
    if hyperspace_state.remaining_seconds <= 0 {
        hyperspace_state.is_active = false;
        return ;
    }
    let progress = hyperspace_state.progress();
    warp_particles(arena, hyperspace_state.vanishing_point, progress, delta_seconds);
}

/// The phase of the ripple wave at a particle: its distance to the pointer
/// over 80, minus twice the elapsed time. The wave travels outward.
pub open spec fn ripple_argument_spec(p: ParticleBundle, mouse: MouseState, elapsed_seconds: Fixed) -> Fixed {
    fx_sub(
        fx_div(mouse.position.minus(p.transform.translation).length(), 80_000_000),
        fx_mul(elapsed_seconds, 2_000_000),
    )
}

/// The phase of the ripple wave at a particle: its distance to the pointer
/// over 80, minus twice the elapsed time. The wave travels outward.
#[verifier::when_used_as_spec(ripple_argument_spec)]
pub fn ripple_argument(p: ParticleBundle, mouse: MouseState, elapsed_seconds: Fixed) -> (r: Fixed)
    ensures
        r == ripple_argument_spec(p, mouse, elapsed_seconds),
{
    fx_sub(
        fx_div(mouse.position.minus(p.transform.translation).length(), 80_000_000),
        fx_mul(elapsed_seconds, 2_000_000),
    )
}

/// The ripple phase of every slot, by id. The host takes the sine of each
/// for [`apply_mouse_influence`].
pub fn ripple_arguments_of(arena: &ParticleArena, mouse: &MouseState, elapsed_seconds: Fixed) -> (r:
    Vec<Fixed>)
    ensures
        r@.len() == arena.particles@.len(),
        forall|i: int|
            0 <= i < r@.len() ==> #[trigger] r@[i] == ripple_argument(
                arena.particles@[i],
                *mouse,
                elapsed_seconds,
            ),
{
    let mut out: Vec<Fixed> = Vec::new();
    let count: usize = arena.particles.len();
    let mut i: usize = 0;
    while i < count
        invariant
            i <= count,
            count == arena.particles@.len(),
            out@.len() == i,
            forall|j: int|
                0 <= j < i ==> #[trigger] out@[j] == ripple_argument(
                    arena.particles@[j],
                    *mouse,
                    elapsed_seconds,
                ),
        decreases count - i,
    {
        out.push(ripple_argument(arena.particles[i], *mouse, elapsed_seconds));
        i = i + 1;
    }
    out
}

/// The sample of slot `i`: the host's value, or zero where the host
/// supplied none.
pub open spec fn sample_at(samples: Seq<Fixed>, i: int) -> Fixed {
    if 0 <= i < samples.len() {
        samples[i]
    } else {
        0
    }
}

/// The colour with each channel pushed away from the plain average of the
/// three by `amount` times its distance from it, clamped to `[0, 1]`. Alpha
/// is kept.
pub open spec fn saturation_boosted_spec(color: Srgba, amount: Fixed) -> Srgba {
    let average = fx_div(fx_add(fx_add(color.red, color.green), color.blue), 3_000_000);
    Srgba {
        red: fx_clamp(fx_add(color.red, fx_mul(fx_sub(color.red, average), amount)), 0, ONE),
        green: fx_clamp(fx_add(color.green, fx_mul(fx_sub(color.green, average), amount)), 0, ONE),
        blue: fx_clamp(fx_add(color.blue, fx_mul(fx_sub(color.blue, average), amount)), 0, ONE),
        alpha: color.alpha,
    }
}

/// The colour with each channel pushed away from the plain average of the
/// three by `amount` times its distance from it, clamped to `[0, 1]`. Alpha
/// is kept.
#[verifier::when_used_as_spec(saturation_boosted_spec)]
pub fn saturation_boosted(color: Srgba, amount: Fixed) -> (r: Srgba)
    ensures
        r == saturation_boosted_spec(color, amount),
{
    let average = fx_div(fx_add(fx_add(color.red, color.green), color.blue), 3_000_000);
    Srgba {
        red: fx_clamp(fx_add(color.red, fx_mul(fx_sub(color.red, average), amount)), 0, ONE),
        green: fx_clamp(fx_add(color.green, fx_mul(fx_sub(color.green, average), amount)), 0, ONE),
        blue: fx_clamp(fx_add(color.blue, fx_mul(fx_sub(color.blue, average), amount)), 0, ONE),
        alpha: color.alpha,
    }
}

/// The colour with `amount` added to each channel, capped at one. Alpha is
/// kept.
pub open spec fn lightened_spec(color: Srgba, amount: Fixed) -> Srgba {
    Srgba {
        red: fx_min(fx_add(color.red, amount), ONE),
        green: fx_min(fx_add(color.green, amount), ONE),
        blue: fx_min(fx_add(color.blue, amount), ONE),
        alpha: color.alpha,
    }
}

/// The colour with `amount` added to each channel, capped at one. Alpha is
/// kept.
#[verifier::when_used_as_spec(lightened_spec)]
pub fn lightened(color: Srgba, amount: Fixed) -> (r: Srgba)
    ensures
        r == lightened_spec(color, amount),
{
    Srgba {
        red: fx_min(fx_add(color.red, amount), ONE),
        green: fx_min(fx_add(color.green, amount), ONE),
        blue: fx_min(fx_add(color.blue, amount), ONE),
        alpha: color.alpha,
    }
}

/// What an interaction mode does to a particle inside the pointer's reach.
///
/// `direction` is the unit vector from the particle to the pointer,
/// `falloff` the quadratic falloff at the particle, `strength` the
/// pointer's speed-derived strength and `ripple_sine` the sine of the ripple
/// phase at the particle.
///
/// - Paint: nothing.
/// - Attract: an impulse toward the pointer of `80 * falloff * (0.5 + 0.5
///   strength)` per second.
/// - Intensify: three tenths of the attract base toward the pointer, a
///   saturation boost of `0.3 falloff`, scale growth of `0.15 falloff` per
///   second capped at 2.5 and bloom growth of `0.2 falloff` per second capped
///   at 1.
/// - Disperse: an impulse away from the pointer of `100 * falloff * (0.6 +
///   0.4 strength)` per second plus `30 falloff` per second upward; the
///   colour lightens by `0.1 falloff` per second.
/// - Ripple: a push away from the pointer of `25 * falloff * (0.3 + 0.7
///   strength)` per second times the ripple sine, so that it turns into a
///   pull on the other half of the wave; the opacity follows the wave by
///   `0.05 falloff` per second and stays within `[0.1, 1]`.
pub open spec fn mode_effect_spec(p: ParticleBundle, mode: InteractionMode, direction: Vec2, falloff: Fixed, strength: Fixed, delta_seconds: Fixed, ripple_sine: Fixed) -> ParticleBundle {
    match mode {
        InteractionMode::Paint => p,
        InteractionMode::Attract => {
            let force = fx_mul(
                fx_mul(ATTRACT_FORCE_BASE, falloff),
                fx_add(500_000, fx_mul(500_000, strength)),
            );
            ParticleBundle {
                motion: ParticleMotion {
                    velocity: p.motion.velocity.plus(direction.scaled(force).scaled(delta_seconds)),
                    ..p.motion
                },
                ..p
            }
        },
        InteractionMode::Intensify => {
            let pull = direction.scaled(ATTRACT_FORCE_BASE).scaled(300_000).scaled(falloff).scaled(
                delta_seconds,
            );
            ParticleBundle {
                motion: ParticleMotion { velocity: p.motion.velocity.plus(pull), ..p.motion },
                visual: ParticleVisual {
                    current_color: saturation_boosted(
                        p.visual.current_color,
                        fx_mul(INTENSIFY_SATURATION_BOOST, falloff),
                    ),
                    scale: fx_min(
                        fx_add(
                            p.visual.scale,
                            fx_mul(fx_mul(INTENSIFY_SCALE_BOOST, falloff), delta_seconds),
                        ),
                        2_500_000,
                    ),
                    bloom_contribution: fx_min(
                        fx_add(
                            p.visual.bloom_contribution,
                            fx_mul(fx_mul(falloff, 200_000), delta_seconds),
                        ),
                        ONE,
                    ),
                    ..p.visual
                },
                ..p
            }
        },
        InteractionMode::Disperse => {
            let force = fx_mul(
                fx_mul(DISPERSE_FORCE_BASE, falloff),
                fx_add(600_000, fx_mul(400_000, strength)),
            );
            let repulsion = direction.negated().scaled(force).scaled(delta_seconds);
            let upward = Vec2 {
                x: 0,
                y: fx_mul(fx_mul(DISPERSE_UPWARD_BIAS, falloff), delta_seconds),
            };
            ParticleBundle {
                motion: ParticleMotion {
                    velocity: p.motion.velocity.plus(repulsion.plus(upward)),
                    ..p.motion
                },
                visual: ParticleVisual {
                    current_color: lightened(
                        p.visual.current_color,
                        fx_mul(fx_mul(100_000, falloff), delta_seconds),
                    ),
                    ..p.visual
                },
                ..p
            }
        },
        InteractionMode::Ripple => {
            let wave = fx_mul(
                fx_mul(RIPPLE_FORCE_BASE, falloff),
                fx_add(300_000, fx_mul(700_000, strength)),
            );
            let push = direction.negated().scaled(wave).scaled(ripple_sine).scaled(delta_seconds);
            let sway = fx_mul(fx_mul(50_000, falloff), ripple_sine);
            ParticleBundle {
                motion: ParticleMotion { velocity: p.motion.velocity.plus(push), ..p.motion },
                visual: ParticleVisual {
                    opacity: fx_clamp(
                        fx_add(p.visual.opacity, fx_mul(sway, delta_seconds)),
                        100_000,
                        ONE,
                    ),
                    ..p.visual
                },
                ..p
            }
        },
    }
}

/// What an interaction mode does to a particle inside the pointer's reach.
///
/// `direction` is the unit vector from the particle to the pointer,
/// `falloff` the quadratic falloff at the particle, `strength` the
/// pointer's speed-derived strength and `ripple_sine` the sine of the ripple
/// phase at the particle.
///
/// - Paint: nothing.
/// - Attract: an impulse toward the pointer of `80 * falloff * (0.5 + 0.5
///   strength)` per second.
/// - Intensify: three tenths of the attract base toward the pointer, a
///   saturation boost of `0.3 falloff`, scale growth of `0.15 falloff` per
///   second capped at 2.5 and bloom growth of `0.2 falloff` per second capped
///   at 1.
/// - Disperse: an impulse away from the pointer of `100 * falloff * (0.6 +
///   0.4 strength)` per second plus `30 falloff` per second upward; the
///   colour lightens by `0.1 falloff` per second.
/// - Ripple: a push away from the pointer of `25 * falloff * (0.3 + 0.7
///   strength)` per second times the ripple sine, so that it turns into a
///   pull on the other half of the wave; the opacity follows the wave by
///   `0.05 falloff` per second and stays within `[0.1, 1]`.
#[verifier::when_used_as_spec(mode_effect_spec)]
pub fn mode_effect(p: ParticleBundle, mode: InteractionMode, direction: Vec2, falloff: Fixed, strength: Fixed, delta_seconds: Fixed, ripple_sine: Fixed) -> (r: ParticleBundle)
    ensures
        r == mode_effect_spec(p, mode, direction, falloff, strength, delta_seconds, ripple_sine),
{
    match mode {
        InteractionMode::Paint => p,
        InteractionMode::Attract => {
            let force = fx_mul(
                fx_mul(ATTRACT_FORCE_BASE, falloff),
                fx_add(500_000, fx_mul(500_000, strength)),
            );
            ParticleBundle {
                motion: ParticleMotion {
                    velocity: p.motion.velocity.plus(direction.scaled(force).scaled(delta_seconds)),
                    ..p.motion
                },
                ..p
            }
        },
        InteractionMode::Intensify => {
            let pull = direction.scaled(ATTRACT_FORCE_BASE).scaled(300_000).scaled(falloff).scaled(
                delta_seconds,
            );
            ParticleBundle {
                motion: ParticleMotion { velocity: p.motion.velocity.plus(pull), ..p.motion },
                visual: ParticleVisual {
                    current_color: saturation_boosted(
                        p.visual.current_color,
                        fx_mul(INTENSIFY_SATURATION_BOOST, falloff),
                    ),
                    scale: fx_min(
                        fx_add(
                            p.visual.scale,
                            fx_mul(fx_mul(INTENSIFY_SCALE_BOOST, falloff), delta_seconds),
                        ),
                        2_500_000,
                    ),
                    bloom_contribution: fx_min(
                        fx_add(
                            p.visual.bloom_contribution,
                            fx_mul(fx_mul(falloff, 200_000), delta_seconds),
                        ),
                        ONE,
                    ),
                    ..p.visual
                },
                ..p
            }
        },
        InteractionMode::Disperse => {
            let force = fx_mul(
                fx_mul(DISPERSE_FORCE_BASE, falloff),
                fx_add(600_000, fx_mul(400_000, strength)),
            );
            let repulsion = direction.negated().scaled(force).scaled(delta_seconds);
            let upward = Vec2 {
                x: 0,
                y: fx_mul(fx_mul(DISPERSE_UPWARD_BIAS, falloff), delta_seconds),
            };
            ParticleBundle {
                motion: ParticleMotion {
                    velocity: p.motion.velocity.plus(repulsion.plus(upward)),
                    ..p.motion
                },
                visual: ParticleVisual {
                    current_color: lightened(
                        p.visual.current_color,
                        fx_mul(fx_mul(100_000, falloff), delta_seconds),
                    ),
                    ..p.visual
                },
                ..p
            }
        },
        InteractionMode::Ripple => {
            let wave = fx_mul(
                fx_mul(RIPPLE_FORCE_BASE, falloff),
                fx_add(300_000, fx_mul(700_000, strength)),
            );
            let push = direction.negated().scaled(wave).scaled(ripple_sine).scaled(delta_seconds);
            let sway = fx_mul(fx_mul(50_000, falloff), ripple_sine);
            ParticleBundle {
                motion: ParticleMotion { velocity: p.motion.velocity.plus(push), ..p.motion },
                visual: ParticleVisual {
                    opacity: fx_clamp(
                        fx_add(p.visual.opacity, fx_mul(sway, delta_seconds)),
                        100_000,
                        ONE,
                    ),
                    ..p.visual
                },
                ..p
            }
        },
    }
}

/// The particle after the pointer has acted on it for one tick.
///
/// While the pointer is inactive, and for an inactive particle, the
/// particle is marked as unaffected with zero influence. Otherwise its
/// distance to the pointer is recorded. At or beyond `radius` it is
/// unaffected. Inside, it is marked as affected, its influence is the
/// quadratic falloff at its distance, and the mode acts on it as
/// [`mode_effect`] describes, along the unit vector toward the pointer (the
/// zero vector within a thousandth of a unit of it).
pub open spec fn influenced_spec(p: ParticleBundle, mouse: MouseState, radius: Fixed, mode: InteractionMode, delta_seconds: Fixed, ripple_sine: Fixed) -> ParticleBundle {
    let unaffected = MouseInfluence { affected: false, influence_strength: 0, ..p.mouse_influence };
    if !mouse.is_active || !p.state.active {
        ParticleBundle { mouse_influence: unaffected, ..p }
    } else {
        let to_cursor = mouse.position.minus(p.transform.translation);
        let distance = to_cursor.length();
        if distance >= radius {
            ParticleBundle {
                mouse_influence: MouseInfluence { distance_to_cursor: distance, ..unaffected },
                ..p
            }
        } else {
            let falloff = quadratic_falloff(distance, radius);
            let direction = if distance > 1_000 {
                to_cursor.divided(distance)
            } else {
                Vec2::zero()
            };
            let marked = ParticleBundle {
                mouse_influence: MouseInfluence {
                    affected: true,
                    distance_to_cursor: distance,
                    influence_strength: falloff,
                },
                ..p
            };
            mode_effect(
                marked,
                mode,
                direction,
                falloff,
                velocity_to_strength(mouse.velocity),
                delta_seconds,
                ripple_sine,
            )
        }
    }
}

/// The particle after the pointer has acted on it for one tick.
///
/// While the pointer is inactive, and for an inactive particle, the
/// particle is marked as unaffected with zero influence. Otherwise its
/// distance to the pointer is recorded. At or beyond `radius` it is
/// unaffected. Inside, it is marked as affected, its influence is the
/// quadratic falloff at its distance, and the mode acts on it as
/// [`mode_effect`] describes, along the unit vector toward the pointer (the
/// zero vector within a thousandth of a unit of it).
#[verifier::when_used_as_spec(influenced_spec)]
pub fn influenced(p: ParticleBundle, mouse: MouseState, radius: Fixed, mode: InteractionMode, delta_seconds: Fixed, ripple_sine: Fixed) -> (r: ParticleBundle)
    ensures
        r == influenced_spec(p, mouse, radius, mode, delta_seconds, ripple_sine),
{
    let unaffected = MouseInfluence { affected: false, influence_strength: 0, ..p.mouse_influence };
    if !mouse.is_active || !p.state.active {
        ParticleBundle { mouse_influence: unaffected, ..p }
    } else {
        let to_cursor = mouse.position.minus(p.transform.translation);
        let distance = to_cursor.length();
        if distance >= radius {
            ParticleBundle {
                mouse_influence: MouseInfluence { distance_to_cursor: distance, ..unaffected },
                ..p
            }
        } else {
            let falloff = quadratic_falloff(distance, radius);
            let direction = if distance > 1_000 {
                to_cursor.divided(distance)
            } else {
                Vec2::zero()
            };
            let marked = ParticleBundle {
                mouse_influence: MouseInfluence {
                    affected: true,
                    distance_to_cursor: distance,
                    influence_strength: falloff,
                },
                ..p
            };
            mode_effect(
                marked,
                mode,
                direction,
                falloff,
                velocity_to_strength(mouse.velocity),
                delta_seconds,
                ripple_sine,
            )
        }
    }
}

/// Lets the pointer act on every particle for one tick, as [`influenced`]
/// describes, with the interaction radius currently in force.
///
/// `ripple_sines[i]` is the sine of [`ripple_argument`] for slot `i`, which
/// the host evaluates; only the ripple mode reads it, and a slot without a
/// sample is treated as if the wave were at rest there.
pub fn apply_mouse_influence(arena: &mut ParticleArena, mouse: &MouseState, interaction_config: &InteractionConfig, current_mode: InteractionMode, delta_seconds: Fixed, ripple_sines: &Vec<Fixed>)
    ensures
        final(arena).pool == old(arena).pool,
        final(arena).particles@.len() == old(arena).particles@.len(),
        forall|i: int|
            0 <= i < old(arena).particles@.len() ==> #[trigger] final(arena).particles@[i]
                == influenced(old(arena).particles@[i], *mouse, interaction_config.current_radius, current_mode, delta_seconds, sample_at(ripple_sines@, i)),
        old(arena).wf() ==> final(arena).wf(),
{
    let count: usize = arena.particles.len();
    let mut i: usize = 0;
    while i < count
        invariant
            i <= count,
            count == arena.particles@.len(),
            count == old(arena).particles@.len(),
            arena.pool == old(arena).pool,
            forall|j: int|
                0 <= j < i ==> #[trigger] arena.particles@[j] == influenced(old(arena).particles@[j], *mouse, interaction_config.current_radius, current_mode, delta_seconds, sample_at(ripple_sines@, j)),
            forall|j: int| i <= j < count ==> arena.particles@[j] == old(arena).particles@[j],
        decreases count - i,
    {
        let stepped = influenced(arena.particles[i], *mouse, interaction_config.current_radius, current_mode, delta_seconds, if i < ripple_sines.len() { ripple_sines[i] } else { 0 });
        arena.particles[i] = stepped;
        i = i + 1;
    }
    proof {
        if old(arena).wf() {
            lemma_same_occupancy_keeps_wf(old(arena), arena);
        }
    }
}

/// What the host knows about the pointer on this tick.
#[derive(Clone, Copy, Debug, PartialEq, Eq)]
pub enum PointerSample {
    /// The window or the camera is missing, or the pointer position could
    /// not be mapped into the world.
    Unavailable,
    /// The pointer is outside the window.
    Absent,
    /// The pointer is at this world position.
    At(Vec2),
}

/// The pointer state after the pointer was seen at `world_position`.
///
/// If time has passed, the velocity moves three tenths of the way toward
/// the velocity of this tick (the displacement over the duration). The
/// pointer becomes active at the new position, and the engagement time
/// grows by the tick duration times the speed over 200, that factor
/// clamped to `[0.1, 1]`.
pub open spec fn pointer_moved_spec(mouse: MouseState, world_position: Vec2, delta_seconds: Fixed) -> MouseState {
    let velocity = if delta_seconds > 0 {
        mouse.velocity.lerp(world_position.minus(mouse.position).divided(delta_seconds), 300_000)
    } else {
        mouse.velocity
    };
    MouseState {
        position: world_position,
        velocity,
        is_active: true,
        accumulated_interaction: fx_add(
            mouse.accumulated_interaction,
            fx_mul(delta_seconds, fx_clamp(fx_div(velocity.length(), 200_000_000), 100_000, ONE)),
        ),
    }
}

/// The pointer state after the pointer was seen at `world_position`.
///
/// If time has passed, the velocity moves three tenths of the way toward
/// the velocity of this tick (the displacement over the duration). The
/// pointer becomes active at the new position, and the engagement time
/// grows by the tick duration times the speed over 200, that factor
/// clamped to `[0.1, 1]`.
#[verifier::when_used_as_spec(pointer_moved_spec)]
pub fn pointer_moved(mouse: MouseState, world_position: Vec2, delta_seconds: Fixed) -> (r: MouseState)
    ensures
        r == pointer_moved_spec(mouse, world_position, delta_seconds),
{
    let velocity = if delta_seconds > 0 {
        mouse.velocity.lerp(world_position.minus(mouse.position).divided(delta_seconds), 300_000)
    } else {
        mouse.velocity
    };
    MouseState {
        position: world_position,
        velocity,
        is_active: true,
        accumulated_interaction: fx_add(
            mouse.accumulated_interaction,
            fx_mul(delta_seconds, fx_clamp(fx_div(velocity.length(), 200_000_000), 100_000, ONE)),
        ),
    }
}

/// The pointer state after one tick. An unavailable pointer becomes
/// inactive; an absent one becomes inactive and loses its velocity; a
/// pointer that is seen moves as [`pointer_moved`] describes.
pub open spec fn mouse_state_after_spec(mouse: MouseState, sample: PointerSample, delta_seconds: Fixed) -> MouseState {
    match sample {
        PointerSample::Unavailable => MouseState { is_active: false, ..mouse },
        PointerSample::Absent => MouseState { is_active: false, velocity: Vec2::zero(), ..mouse },
        PointerSample::At(world_position) => pointer_moved(mouse, world_position, delta_seconds),
    }
}

/// The pointer state after one tick. An unavailable pointer becomes
/// inactive; an absent one becomes inactive and loses its velocity; a
/// pointer that is seen moves as [`pointer_moved`] describes.
#[verifier::when_used_as_spec(mouse_state_after_spec)]
pub fn mouse_state_after(mouse: MouseState, sample: PointerSample, delta_seconds: Fixed) -> (r: MouseState)
    ensures
        r == mouse_state_after_spec(mouse, sample, delta_seconds),
{
    match sample {
        PointerSample::Unavailable => MouseState { is_active: false, ..mouse },
        PointerSample::Absent => MouseState { is_active: false, velocity: Vec2::zero(), ..mouse },
        PointerSample::At(world_position) => pointer_moved(mouse, world_position, delta_seconds),
    }
}

/// Engagement only ever accumulates: as long as time does not run
/// backward, a pointer that is seen never loses engagement time.
pub proof fn lemma_engagement_never_shrinks(
    mouse: MouseState,
    world_position: Vec2,
    delta_seconds: Fixed,
)
    requires
        0 <= delta_seconds,
    ensures
        pointer_moved(mouse, world_position, delta_seconds).accumulated_interaction
            >= mouse.accumulated_interaction,
{
    let after = pointer_moved(mouse, world_position, delta_seconds);
    let factor = fx_clamp(fx_div(after.velocity.length(), 200_000_000), 100_000, ONE);
    lemma_mul_by_fraction(delta_seconds, factor);
}

/// Brings the pointer state up to date with what the host saw on this
/// tick, as [`mouse_state_after`] describes.
pub fn update_mouse_state(mouse_state: &mut MouseState, sample: PointerSample, delta_seconds: Fixed)
    ensures
        *final(mouse_state) == mouse_state_after(*old(mouse_state), sample, delta_seconds),
{
    *mouse_state = mouse_state_after(*mouse_state, sample, delta_seconds);
}

/// The interaction radius that an engagement time calls for: from the base
/// radius at none to the maximum radius at sixty seconds, linear in between
/// and clamped to that range.
pub open spec fn target_radius_spec(accumulated_interaction: Fixed, base_radius: Fixed, max_radius: Fixed) -> Fixed {
    fx_clamp(
        fx_add(
            base_radius,
            fx_mul(fx_div(accumulated_interaction, 60_000_000), fx_sub(max_radius, base_radius)),
        ),
        base_radius,
        max_radius,
    )
}

/// The interaction radius that an engagement time calls for: from the base
/// radius at none to the maximum radius at sixty seconds, linear in between
/// and clamped to that range.
#[verifier::when_used_as_spec(target_radius_spec)]
pub fn target_radius(accumulated_interaction: Fixed, base_radius: Fixed, max_radius: Fixed) -> (r: Fixed)
    ensures
        r == target_radius_spec(accumulated_interaction, base_radius, max_radius),
{
    fx_clamp(
        fx_add(
            base_radius,
            fx_mul(fx_div(accumulated_interaction, 60_000_000), fx_sub(max_radius, base_radius)),
        ),
        base_radius,
        max_radius,
    )
}

/// Moves the interaction radius one twentieth of the way toward the radius
/// that the engagement time calls for.
///
/// A radius that is at or below its target never shrinks and never
/// overshoots the target.
pub fn calculate_interaction_radius(
    mouse_state: &MouseState,
    interaction_config: &mut InteractionConfig,
)
    ensures
        *final(interaction_config) == (InteractionConfig {
            current_radius: fx_lerp(
                old(interaction_config).current_radius,
                target_radius(
                    mouse_state.accumulated_interaction,
                    old(interaction_config).base_radius,
                    old(interaction_config).max_radius,
                ),
                50_000,
            ),
            ..*old(interaction_config)
        }),
        old(interaction_config).current_radius <= target_radius(
            mouse_state.accumulated_interaction,
            old(interaction_config).base_radius,
            old(interaction_config).max_radius,
        ) ==> old(interaction_config).current_radius <= final(interaction_config).current_radius
            <= target_radius(
            mouse_state.accumulated_interaction,
            old(interaction_config).base_radius,
            old(interaction_config).max_radius,
        ),
{
    let target = target_radius(
        mouse_state.accumulated_interaction,
        interaction_config.base_radius,
        interaction_config.max_radius,
    );
    proof {
        if interaction_config.current_radius <= target {
            lemma_mul_by_fraction(fx_sub(target, interaction_config.current_radius), 50_000);
        }
    }
    interaction_config.current_radius = fx_lerp(interaction_config.current_radius, target, 50_000);
}

/// What the keyboard triggered on this tick.
#[derive(Clone, Copy, Debug, PartialEq, Eq)]
pub struct KeyboardEvents {
    /// A breath pulse fired.
    pub breath_pulse: Option<BreathPulse>,
    /// The graceful exit began.
    pub gentle_fade: Option<GentleFade>,
}

/// Handles the space and escape keys.
///
/// The breath cooldown runs down by `delta_seconds`, not below zero. A
/// press of space while no cooldown is left fires a breath pulse of
/// strength one at the pointer and starts a cooldown of 0.4 seconds. A
/// press of escape while no fade is running starts the three-second fade;
/// a running fade cannot be started again.
pub fn handle_keyboard_input(
    space_just_pressed: bool,
    escape_just_pressed: bool,
    mouse_state: &MouseState,
    breath_cooldown: &mut BreathPulseCooldown,
    gentle_fade_state: &mut GentleFadeState,
    delta_seconds: Fixed,
) -> (events: KeyboardEvents)
    ensures
        events.breath_pulse == (if space_just_pressed && fx_max(
            fx_sub(old(breath_cooldown).remaining_seconds, delta_seconds),
            0,
        ) <= 0 {
            Some(BreathPulse { origin: mouse_state.position, strength: ONE })
        } else {
            None
        }),
        final(breath_cooldown).remaining_seconds == (if events.breath_pulse is Some {
            BREATH_PULSE_COOLDOWN_SECONDS
        } else {
            fx_max(fx_sub(old(breath_cooldown).remaining_seconds, delta_seconds), 0)
        }),
        events.gentle_fade == (if escape_just_pressed && !old(gentle_fade_state).is_active {
            Some(GentleFade { duration_seconds: GENTLE_FADE_DURATION_SECONDS })
        } else {
            None
        }),
        *final(gentle_fade_state) == (if events.gentle_fade is Some {
            GentleFadeState {
                is_active: true,
                remaining_seconds: GENTLE_FADE_DURATION_SECONDS,
                total_duration_seconds: GENTLE_FADE_DURATION_SECONDS,
            }
        } else {
            *old(gentle_fade_state)
        }),
{
    let mut breath_pulse: Option<BreathPulse> = None;
    let mut gentle_fade: Option<GentleFade> = None;
    breath_cooldown.remaining_seconds = fx_max(
        fx_sub(breath_cooldown.remaining_seconds, delta_seconds),
        0,
    );
    if space_just_pressed && breath_cooldown.remaining_seconds <= 0 {
        breath_pulse = Some(BreathPulse { origin: mouse_state.position, strength: ONE });
        breath_cooldown.remaining_seconds = BREATH_PULSE_COOLDOWN_SECONDS;
    }
    if escape_just_pressed && !gentle_fade_state.is_active {
        gentle_fade_state.is_active = true;
        gentle_fade_state.remaining_seconds = GENTLE_FADE_DURATION_SECONDS;
        gentle_fade_state.total_duration_seconds = GENTLE_FADE_DURATION_SECONDS;
        gentle_fade = Some(GentleFade { duration_seconds: GENTLE_FADE_DURATION_SECONDS });
    }
    KeyboardEvents { breath_pulse, gentle_fade }
}

/// What a pointer button or a touch gesture triggered on this tick.
#[derive(Clone, Copy, Debug, PartialEq, Eq)]
pub struct EffectEvents {
    /// An explosion was triggered.
    pub explosion: Option<ExplosionEvent>,
    /// The hyperspace effect was started.
    pub hyperspace: Option<HyperspaceJumpEvent>,
}

/// Handles the pointer buttons.
///
/// Nothing happens while the pointer is inactive. A press of the left
/// button triggers an explosion of strength one at the pointer. A press of
/// the right button starts the hyperspace effect with the pointer as
/// vanishing point, unless the effect is already running.
pub fn handle_mouse_clicks(
    left_just_pressed: bool,
    right_just_pressed: bool,
    mouse_state: &MouseState,
    hyperspace_state: &mut HyperspaceState,
) -> (events: EffectEvents)
    ensures
        events.explosion == (if mouse_state.is_active && left_just_pressed {
            Some(ExplosionEvent { origin: mouse_state.position, strength: ONE })
        } else {
            None
        }),
        events.hyperspace == (if mouse_state.is_active && right_just_pressed && !old(
            hyperspace_state,
        ).is_active {
            Some(HyperspaceJumpEvent { vanishing_point: mouse_state.position })
        } else {
            None
        }),
        *final(hyperspace_state) == (if events.hyperspace is Some {
            HyperspaceState::started_at(mouse_state.position)
        } else {
            *old(hyperspace_state)
        }),
{
    let mut explosion: Option<ExplosionEvent> = None;
    let mut hyperspace: Option<HyperspaceJumpEvent> = None;
    if mouse_state.is_active {
        if left_just_pressed {
            explosion = Some(ExplosionEvent { origin: mouse_state.position, strength: ONE });
        }
        if right_just_pressed && !hyperspace_state.is_active {
            hyperspace_state.is_active = true;
            hyperspace_state.vanishing_point = mouse_state.position;
            hyperspace_state.remaining_seconds = HYPERSPACE_DURATION;
            hyperspace_state.total_duration = HYPERSPACE_DURATION;
            hyperspace = Some(HyperspaceJumpEvent { vanishing_point: mouse_state.position });
        }
    }
    EffectEvents { explosion, hyperspace }
}

impl GentleFadeState {
    /// The state after `delta_seconds`: a running fade loses that much
    /// time.
    pub open spec fn ticked(self, delta_seconds: Fixed) -> GentleFadeState {
        if self.is_active {
            GentleFadeState {
                remaining_seconds: fx_sub(self.remaining_seconds, delta_seconds),
                ..self
            }
        } else {
            self
        }
    }
}

/// Runs the graceful exit down and says whether the host must exit now:
/// the fade is running and has no time left.
pub fn update_gentle_fade(gentle_fade_state: &mut GentleFadeState, delta_seconds: Fixed) -> (exit:
    bool)
    ensures
        *final(gentle_fade_state) == old(gentle_fade_state).ticked(delta_seconds),
        exit == (final(gentle_fade_state).is_active && final(gentle_fade_state).remaining_seconds
            <= 0),
{
    if !gentle_fade_state.is_active {
        return false;
    }
    gentle_fade_state.remaining_seconds = fx_sub(gentle_fade_state.remaining_seconds, delta_seconds);
    gentle_fade_state.remaining_seconds <= 0
}

/// One finger on the screen as the host reports it.
#[derive(Clone, Copy, Debug, PartialEq, Eq)]
pub struct TouchPoint {
    /// Id of the touch, stable while the finger is down.
    pub id: u64,
    /// Position in screen coordinates.
    pub position: Vec2,
    /// The same position in world coordinates, where the host could map it.
    pub world_position: Option<Vec2>,
}

/// The touches of one tick as the host reports them.
#[derive(Clone, Debug, PartialEq, Eq)]
pub struct TouchFrame {
    /// Every finger that is down.
    pub pressed: Vec<TouchPoint>,
    /// The fingers that went down on this tick.
    pub just_pressed: Vec<TouchPoint>,
    /// Ids of the fingers that were lifted on this tick.
    pub just_released: Vec<u64>,
    /// Ids of the touches that the system cancelled on this tick.
    pub just_canceled: Vec<u64>,
}

/// The touch state together with the pointer state that touches drive.
#[derive(Clone, Copy, Debug, PartialEq, Eq)]
pub struct TouchTracking {
    /// The touch state.
    pub touch: TouchState,
    /// The pointer state.
    pub mouse: MouseState,
}

/// The touch state after counting the fingers that are down.
///
/// A count above the peak of the gesture becomes the new peak, and when
/// it reaches two from below two the time is noted as the start of the
/// multi-touch. When the last finger has left, the peak and the
/// two-finger latch are cleared.
pub open spec fn touches_counted_spec(touch: TouchState, count: usize, elapsed_seconds: Fixed) -> TouchState {
    let rises = count > touch.peak_touch_count;
    let counted = TouchState {
        touch_count: count,
        peak_touch_count: if rises {
            count
        } else {
            touch.peak_touch_count
        },
        multi_touch_start_time: if rises && count >= 2 && touch.touch_count < 2 {
            elapsed_seconds
        } else {
            touch.multi_touch_start_time
        },
        ..touch
    };
    if count == 0 && touch.touch_count > 0 {
        TouchState { peak_touch_count: 0, two_finger_triggered: false, ..counted }
    } else {
        counted
    }
}

/// The touch state after counting the fingers that are down.
///
/// A count above the peak of the gesture becomes the new peak, and when
/// it reaches two from below two the time is noted as the start of the
/// multi-touch. When the last finger has left, the peak and the
/// two-finger latch are cleared.
#[verifier::when_used_as_spec(touches_counted_spec)]
pub fn touches_counted(touch: TouchState, count: usize, elapsed_seconds: Fixed) -> (r: TouchState)
    ensures
        r == touches_counted_spec(touch, count, elapsed_seconds),
{
    let rises = count > touch.peak_touch_count;
    let counted = TouchState {
        touch_count: count,
        peak_touch_count: if rises {
            count
        } else {
            touch.peak_touch_count
        },
        multi_touch_start_time: if rises && count >= 2 && touch.touch_count < 2 {
            elapsed_seconds
        } else {
            touch.multi_touch_start_time
        },
        ..touch
    };
    if count == 0 && touch.touch_count > 0 {
        TouchState { peak_touch_count: 0, two_finger_triggered: false, ..counted }
    } else {
        counted
    }
}

/// The touch state after a finger went down: it becomes the primary touch
/// if there is none, else the secondary touch if there is none, else it is
/// ignored. A new primary touch starts at its position with the hold latch
/// cleared.
pub open spec fn touch_pressed_spec(touch: TouchState, point: TouchPoint, elapsed_seconds: Fixed) -> TouchState {
    if touch.primary_touch_id.is_none() {
        TouchState {
            primary_touch_id: Some(point.id),
            primary_start_pos: point.position,
            primary_current_pos: point.position,
            primary_start_time: elapsed_seconds,
            hold_triggered: false,
            ..touch
        }
    } else if touch.secondary_touch_id.is_none() {
        TouchState {
            secondary_touch_id: Some(point.id),
            secondary_start_time: elapsed_seconds,
            ..touch
        }
    } else {
        touch
    }
}

/// The touch state after a finger went down: it becomes the primary touch
/// if there is none, else the secondary touch if there is none, else it is
/// ignored. A new primary touch starts at its position with the hold latch
/// cleared.
#[verifier::when_used_as_spec(touch_pressed_spec)]
pub fn touch_pressed(touch: TouchState, point: TouchPoint, elapsed_seconds: Fixed) -> (r: TouchState)
    ensures
        r == touch_pressed_spec(touch, point, elapsed_seconds),
{
    if touch.primary_touch_id.is_none() {
        TouchState {
            primary_touch_id: Some(point.id),
            primary_start_pos: point.position,
            primary_current_pos: point.position,
            primary_start_time: elapsed_seconds,
            hold_triggered: false,
            ..touch
        }
    } else if touch.secondary_touch_id.is_none() {
        TouchState {
            secondary_touch_id: Some(point.id),
            secondary_start_time: elapsed_seconds,
            ..touch
        }
    } else {
        touch
    }
}

/// The tracking after the finger `id` was lifted.
///
/// Lifting the primary finger ends both touches and clears the hold latch;
/// if at most one finger was down, the pointer becomes inactive and loses
/// its velocity. Lifting the secondary finger ends the secondary touch. Any
/// other id changes nothing.
pub open spec fn touch_released_spec(tracking: TouchTracking, id: u64) -> TouchTracking {
    if tracking.touch.primary_touch_id == Some(id) {
        TouchTracking {
            touch: TouchState {
                primary_touch_id: None,
                hold_triggered: false,
                secondary_touch_id: None,
                ..tracking.touch
            },
            mouse: if tracking.touch.touch_count <= 1 {
                MouseState { is_active: false, velocity: Vec2::zero(), ..tracking.mouse }
            } else {
                tracking.mouse
            },
        }
    } else if tracking.touch.secondary_touch_id == Some(id) {
        TouchTracking {
            touch: TouchState { secondary_touch_id: None, ..tracking.touch },
            ..tracking
        }
    } else {
        tracking
    }
}

/// The tracking after the finger `id` was lifted.
///
/// Lifting the primary finger ends both touches and clears the hold latch;
/// if at most one finger was down, the pointer becomes inactive and loses
/// its velocity. Lifting the secondary finger ends the secondary touch. Any
/// other id changes nothing.
#[verifier::when_used_as_spec(touch_released_spec)]
pub fn touch_released(tracking: TouchTracking, id: u64) -> (r: TouchTracking)
    ensures
        r == touch_released_spec(tracking, id),
{
    if tracking.touch.primary_touch_id == Some(id) {
        TouchTracking {
            touch: TouchState {
                primary_touch_id: None,
                hold_triggered: false,
                secondary_touch_id: None,
                ..tracking.touch
            },
            mouse: if tracking.touch.touch_count <= 1 {
                MouseState { is_active: false, velocity: Vec2::zero(), ..tracking.mouse }
            } else {
                tracking.mouse
            },
        }
    } else if tracking.touch.secondary_touch_id == Some(id) {
        TouchTracking {
            touch: TouchState { secondary_touch_id: None, ..tracking.touch },
            ..tracking
        }
    } else {
        tracking
    }
}

/// The tracking after the system cancelled the touch `id`.
///
/// Cancelling the primary touch ends it, clears the hold latch and makes
/// the pointer inactive. Cancelling the secondary touch ends it.
pub open spec fn touch_canceled_spec(tracking: TouchTracking, id: u64) -> TouchTracking {
    let first = if tracking.touch.primary_touch_id == Some(id) {
        TouchTracking {
            touch: TouchState { primary_touch_id: None, hold_triggered: false, ..tracking.touch },
            mouse: MouseState { is_active: false, ..tracking.mouse },
        }
    } else {
        tracking
    };
    if first.touch.secondary_touch_id == Some(id) {
        TouchTracking { touch: TouchState { secondary_touch_id: None, ..first.touch }, ..first }
    } else {
        first
    }
}

/// The tracking after the system cancelled the touch `id`.
///
/// Cancelling the primary touch ends it, clears the hold latch and makes
/// the pointer inactive. Cancelling the secondary touch ends it.
#[verifier::when_used_as_spec(touch_canceled_spec)]
pub fn touch_canceled(tracking: TouchTracking, id: u64) -> (r: TouchTracking)
    ensures
        r == touch_canceled_spec(tracking, id),
{
    let first = if tracking.touch.primary_touch_id == Some(id) {
        TouchTracking {
            touch: TouchState { primary_touch_id: None, hold_triggered: false, ..tracking.touch },
            mouse: MouseState { is_active: false, ..tracking.mouse },
        }
    } else {
        tracking
    };
    if first.touch.secondary_touch_id == Some(id) {
        TouchTracking { touch: TouchState { secondary_touch_id: None, ..first.touch }, ..first }
    } else {
        first
    }
}

/// The tracking after the primary finger was found at `primary` among the
/// fingers that are down: its screen position is recorded and, where the
/// host could map it into the world, the pointer follows it as
/// [`pointer_moved`] describes. Without a primary finger down nothing
/// changes.
pub open spec fn touch_moved_spec(tracking: TouchTracking, primary: Option<TouchPoint>, delta_seconds: Fixed) -> TouchTracking {
    match primary {
        Some(point) => TouchTracking {
            touch: TouchState { primary_current_pos: point.position, ..tracking.touch },
            mouse: match point.world_position {
                Some(world_position) => pointer_moved(tracking.mouse, world_position, delta_seconds),
                None => tracking.mouse,
            },
        },
        None => tracking,
    }
}

/// The tracking after the primary finger was found at `primary` among the
/// fingers that are down: its screen position is recorded and, where the
/// host could map it into the world, the pointer follows it as
/// [`pointer_moved`] describes. Without a primary finger down nothing
/// changes.
#[verifier::when_used_as_spec(touch_moved_spec)]
pub fn touch_moved(tracking: TouchTracking, primary: Option<TouchPoint>, delta_seconds: Fixed) -> (r: TouchTracking)
    ensures
        r == touch_moved_spec(tracking, primary, delta_seconds),
{
    match primary {
        Some(point) => TouchTracking {
            touch: TouchState { primary_current_pos: point.position, ..tracking.touch },
            mouse: match point.world_position {
                Some(world_position) => pointer_moved(tracking.mouse, world_position, delta_seconds),
                None => tracking.mouse,
            },
        },
        None => tracking,
    }
}

/// The first of `points` from index `start` on that has the id `id`.
pub open spec fn find_touch_from(points: Seq<TouchPoint>, id: u64, start: int) -> Option<
    TouchPoint,
>
    decreases points.len() - start,
{
    if start < 0 || start >= points.len() {
        None
    } else if points[start].id == id {
        Some(points[start])
    } else {
        find_touch_from(points, id, start + 1)
    }
}

/// The finger among `points` that the touch state follows as primary.
pub open spec fn primary_among(touch: TouchState, points: Seq<TouchPoint>) -> Option<TouchPoint> {
    match touch.primary_touch_id {
        Some(id) => find_touch_from(points, id, 0),
        None => None,
    }
}

/// The touch state after the first `n` of `points` went down, in order.
pub open spec fn presses_applied(
    touch: TouchState,
    points: Seq<TouchPoint>,
    elapsed_seconds: Fixed,
    n: int,
) -> TouchState
    decreases n,
{
    if n <= 0 {
        touch
    } else {
        touch_pressed(
            presses_applied(touch, points, elapsed_seconds, n - 1),
            points[n - 1],
            elapsed_seconds,
        )
    }
}

/// The tracking after the first `n` of `ids` were lifted, in order.
pub open spec fn releases_applied(tracking: TouchTracking, ids: Seq<u64>, n: int) -> TouchTracking
    decreases n,
{
    if n <= 0 {
        tracking
    } else {
        touch_released(releases_applied(tracking, ids, n - 1), ids[n - 1])
    }
}

/// The tracking after the first `n` of `ids` were cancelled, in order.
pub open spec fn cancels_applied(tracking: TouchTracking, ids: Seq<u64>, n: int) -> TouchTracking
    decreases n,
{
    if n <= 0 {
        tracking
    } else {
        touch_canceled(cancels_applied(tracking, ids, n - 1), ids[n - 1])
    }
}

/// The tracking after one tick with the touches of `frame`: the fingers
/// are counted, the new ones are taken up, the pointer follows the
/// primary finger, then lifted and cancelled fingers are let go.
pub open spec fn touch_tracking_after(
    tracking: TouchTracking,
    frame: TouchFrame,
    elapsed_seconds: Fixed,
    delta_seconds: Fixed,
) -> TouchTracking {
    let taken = presses_applied(
        touches_counted(tracking.touch, frame.pressed@.len() as usize, elapsed_seconds),
        frame.just_pressed@,
        elapsed_seconds,
        frame.just_pressed@.len() as int,
    );
    let followed = touch_moved(
        TouchTracking { touch: taken, mouse: tracking.mouse },
        primary_among(taken, frame.pressed@),
        delta_seconds,
    );
    cancels_applied(
        releases_applied(followed, frame.just_released@, frame.just_released@.len() as int),
        frame.just_canceled@,
        frame.just_canceled@.len() as int,
    )
}

/// Finds the finger with the id `id` among `points`.
fn find_touch(points: &Vec<TouchPoint>, id: u64) -> (r: Option<TouchPoint>)
    ensures
        r == find_touch_from(points@, id, 0),
{
    let mut i: usize = 0;
    while i < points.len()
        invariant
            i <= points@.len(),
            find_touch_from(points@, id, 0) == find_touch_from(points@, id, i as int),
        decreases points@.len() - i,
    {
        if points[i].id == id {
            return Some(points[i]);
        }
        i = i + 1;
    }
    None
}

/// Brings the touch state and the pointer state up to date with the
/// touches of this tick, as [`touch_tracking_after`] describes.
///
/// A single finger drives the pointer exactly as a mouse would. The first
/// finger down is the primary touch, the next one the secondary; further
/// fingers only count toward the peak of the gesture.
pub fn update_touch_state(
    mouse_state: &mut MouseState,
    touch_state: &mut TouchState,
    frame: &TouchFrame,
    elapsed_seconds: Fixed,
    delta_seconds: Fixed,
)
    ensures
        (TouchTracking { touch: *final(touch_state), mouse: *final(mouse_state) })
            == touch_tracking_after(
            TouchTracking { touch: *old(touch_state), mouse: *old(mouse_state) },
            *frame,
            elapsed_seconds,
            delta_seconds,
        ),
{
    let counted = touches_counted(*touch_state, frame.pressed.len(), elapsed_seconds);
    let mut taken = counted;
    let mut i: usize = 0;
    while i < frame.just_pressed.len()
        invariant
            i <= frame.just_pressed@.len(),
            taken == presses_applied(counted, frame.just_pressed@, elapsed_seconds, i as int),
        decreases frame.just_pressed@.len() - i,
    {
        taken = touch_pressed(taken, frame.just_pressed[i], elapsed_seconds);
        i = i + 1;
    }
    let primary = match taken.primary_touch_id {
        Some(id) => find_touch(&frame.pressed, id),
        None => None,
    };
    let followed = touch_moved(
        TouchTracking { touch: taken, mouse: *mouse_state },
        primary,
        delta_seconds,
    );
    let mut tracking = followed;
    let mut j: usize = 0;
    while j < frame.just_released.len()
        invariant
            j <= frame.just_released@.len(),
            tracking == releases_applied(followed, frame.just_released@, j as int),
        decreases frame.just_released@.len() - j,
    {
        tracking = touch_released(tracking, frame.just_released[j]);
        j = j + 1;
    }
    let lifted = tracking;
    let mut k: usize = 0;
    while k < frame.just_canceled.len()
        invariant
            k <= frame.just_canceled@.len(),
            tracking == cancels_applied(lifted, frame.just_canceled@, k as int),
        decreases frame.just_canceled@.len() - k,
    {
        tracking = touch_canceled(tracking, frame.just_canceled[k]);
        k = k + 1;
    }
    *touch_state = tracking.touch;
    *mouse_state = tracking.mouse;
}

/// What a tick of gesture recognition leaves behind.
#[derive(Clone, Copy, Debug, PartialEq, Eq)]
pub struct GestureOutcome {
    /// The touch state afterward.
    pub touch: TouchState,
    /// The hyperspace state afterward.
    pub hyperspace: HyperspaceState,
    /// What was triggered.
    pub events: EffectEvents,
}

/// Whether a two-finger tap is recognised: at least two fingers were down
/// during the gesture, a finger was lifted on this tick less than 0.45
/// seconds after the second finger came down, the gesture has not fired
/// yet, and no hyperspace effect is running.
pub open spec fn is_two_finger_tap_spec(touch: TouchState, hyperspace: HyperspaceState, any_released: bool, elapsed_seconds: Fixed) -> bool {
    touch.peak_touch_count >= 2 && any_released && !touch.two_finger_triggered
        && !hyperspace.is_active && fx_sub(elapsed_seconds, touch.multi_touch_start_time)
        < TWO_FINGER_MAX_DURATION
}

/// Whether a two-finger tap is recognised: at least two fingers were down
/// during the gesture, a finger was lifted on this tick less than 0.45
/// seconds after the second finger came down, the gesture has not fired
/// yet, and no hyperspace effect is running.
#[verifier::when_used_as_spec(is_two_finger_tap_spec)]
pub fn is_two_finger_tap(touch: TouchState, hyperspace: HyperspaceState, any_released: bool, elapsed_seconds: Fixed) -> (r: bool)
    ensures
        r == is_two_finger_tap_spec(touch, hyperspace, any_released, elapsed_seconds),
{
    touch.peak_touch_count >= 2 && any_released && !touch.two_finger_triggered
        && !hyperspace.is_active && fx_sub(elapsed_seconds, touch.multi_touch_start_time)
        < TWO_FINGER_MAX_DURATION
}

/// Whether the gesture is a single-finger one: a primary touch is followed,
/// no second finger is down, and none has been down during the gesture.
pub open spec fn is_single_finger_spec(touch: TouchState) -> bool {
    touch.primary_touch_id.is_some() && touch.peak_touch_count <= 1
        && touch.secondary_touch_id.is_none()
}

/// Whether the gesture is a single-finger one: a primary touch is followed,
/// no second finger is down, and none has been down during the gesture.
#[verifier::when_used_as_spec(is_single_finger_spec)]
pub fn is_single_finger(touch: TouchState) -> (r: bool)
    ensures
        r == is_single_finger_spec(touch),
{
    touch.primary_touch_id.is_some() && touch.peak_touch_count <= 1
        && touch.secondary_touch_id.is_none()
}

/// Whether a tap is recognised: the primary finger was lifted on this tick
/// less than 0.3 seconds after it came down and less than 30 pixels from
/// where it came down.
pub open spec fn is_tap_spec(touch: TouchState, primary_released: bool, elapsed_seconds: Fixed) -> bool {
    is_single_finger(touch) && primary_released && fx_sub(
        elapsed_seconds,
        touch.primary_start_time,
    ) < TAP_MAX_DURATION && touch.primary_current_pos.minus(touch.primary_start_pos).length()
        < TAP_MAX_DISTANCE
}

/// Whether a tap is recognised: the primary finger was lifted on this tick
/// less than 0.3 seconds after it came down and less than 30 pixels from
/// where it came down.
#[verifier::when_used_as_spec(is_tap_spec)]
pub fn is_tap(touch: TouchState, primary_released: bool, elapsed_seconds: Fixed) -> (r: bool)
    ensures
        r == is_tap_spec(touch, primary_released, elapsed_seconds),
{
    is_single_finger(touch) && primary_released && fx_sub(
        elapsed_seconds,
        touch.primary_start_time,
    ) < TAP_MAX_DURATION && touch.primary_current_pos.minus(touch.primary_start_pos).length()
        < TAP_MAX_DISTANCE
}

/// Whether a hold is recognised: the primary finger has been down for at
/// least half a second, is less than 30 pixels from where it came down, and
/// the hold of this press has not fired yet.
pub open spec fn is_hold_spec(touch: TouchState, elapsed_seconds: Fixed) -> bool {
    is_single_finger(touch) && fx_sub(elapsed_seconds, touch.primary_start_time)
        >= HOLD_MIN_DURATION && touch.primary_current_pos.minus(touch.primary_start_pos).length()
        < TAP_MAX_DISTANCE && !touch.hold_triggered
}

/// Whether a hold is recognised: the primary finger has been down for at
/// least half a second, is less than 30 pixels from where it came down, and
/// the hold of this press has not fired yet.
#[verifier::when_used_as_spec(is_hold_spec)]
pub fn is_hold(touch: TouchState, elapsed_seconds: Fixed) -> (r: bool)
    ensures
        r == is_hold_spec(touch, elapsed_seconds),
{
    is_single_finger(touch) && fx_sub(elapsed_seconds, touch.primary_start_time)
        >= HOLD_MIN_DURATION && touch.primary_current_pos.minus(touch.primary_start_pos).length()
        < TAP_MAX_DISTANCE && !touch.hold_triggered
}

/// One tick of gesture recognition.
///
/// `primary_world` is the world position of the primary finger where the
/// host could map it; without it no gesture fires.
///
/// A two-finger tap starts the hyperspace effect at that position, latches
/// the gesture until every finger has left, and lets both touches go. In a
/// single-finger gesture a tap triggers an explosion of strength one, and a
/// hold triggers an explosion of strength 1.5 once per press.
pub open spec fn gesture_step_spec(touch: TouchState, hyperspace: HyperspaceState, any_released: bool, primary_released: bool, primary_world: Option<Vec2>, elapsed_seconds: Fixed) -> GestureOutcome {
    let quiet = EffectEvents { explosion: None, hyperspace: None };
    match primary_world {
        None => GestureOutcome { touch, hyperspace, events: quiet },
        Some(position) => if is_two_finger_tap(touch, hyperspace, any_released, elapsed_seconds) {
            GestureOutcome {
                touch: TouchState {
                    two_finger_triggered: true,
                    primary_touch_id: None,
                    secondary_touch_id: None,
                    ..touch
                },
                hyperspace: HyperspaceState {
                    is_active: true,
                    vanishing_point: position,
                    remaining_seconds: HYPERSPACE_DURATION,
                    total_duration: HYPERSPACE_DURATION,
                },
                events: EffectEvents {
                    explosion: None,
                    hyperspace: Some(HyperspaceJumpEvent { vanishing_point: position }),
                },
            }
        } else if is_hold(touch, elapsed_seconds) {
            GestureOutcome {
                touch: TouchState { hold_triggered: true, ..touch },
                hyperspace,
                events: EffectEvents {
                    explosion: Some(ExplosionEvent { origin: position, strength: 1_500_000 }),
                    hyperspace: None,
                },
            }
        } else if is_tap(touch, primary_released, elapsed_seconds) {
            GestureOutcome {
                touch,
                hyperspace,
                events: EffectEvents {
                    explosion: Some(ExplosionEvent { origin: position, strength: ONE }),
                    hyperspace: None,
                },
            }
        } else {
            GestureOutcome { touch, hyperspace, events: quiet }
        },
    }
}

/// One tick of gesture recognition.
///
/// `primary_world` is the world position of the primary finger where the
/// host could map it; without it no gesture fires.
///
/// A two-finger tap starts the hyperspace effect at that position, latches
/// the gesture until every finger has left, and lets both touches go. In a
/// single-finger gesture a tap triggers an explosion of strength one, and a
/// hold triggers an explosion of strength 1.5 once per press.
#[verifier::when_used_as_spec(gesture_step_spec)]
pub fn gesture_step(touch: TouchState, hyperspace: HyperspaceState, any_released: bool, primary_released: bool, primary_world: Option<Vec2>, elapsed_seconds: Fixed) -> (r: GestureOutcome)
    ensures
        r == gesture_step_spec(touch, hyperspace, any_released, primary_released, primary_world, elapsed_seconds),
{
    let quiet = EffectEvents { explosion: None, hyperspace: None };
    match primary_world {
        None => GestureOutcome { touch, hyperspace, events: quiet },
        Some(position) => if is_two_finger_tap(touch, hyperspace, any_released, elapsed_seconds) {
            GestureOutcome {
                touch: TouchState {
                    two_finger_triggered: true,
                    primary_touch_id: None,
                    secondary_touch_id: None,
                    ..touch
                },
                hyperspace: HyperspaceState {
                    is_active: true,
                    vanishing_point: position,
                    remaining_seconds: HYPERSPACE_DURATION,
                    total_duration: HYPERSPACE_DURATION,
                },
                events: EffectEvents {
                    explosion: None,
                    hyperspace: Some(HyperspaceJumpEvent { vanishing_point: position }),
                },
            }
        } else if is_hold(touch, elapsed_seconds) {
            GestureOutcome {
                touch: TouchState { hold_triggered: true, ..touch },
                hyperspace,
                events: EffectEvents {
                    explosion: Some(ExplosionEvent { origin: position, strength: 1_500_000 }),
                    hyperspace: None,
                },
            }
        } else if is_tap(touch, primary_released, elapsed_seconds) {
            GestureOutcome {
                touch,
                hyperspace,
                events: EffectEvents {
                    explosion: Some(ExplosionEvent { origin: position, strength: ONE }),
                    hyperspace: None,
                },
            }
        } else {
            GestureOutcome { touch, hyperspace, events: quiet }
        },
    }
}

/// Whether `id` is among `ids`.
fn contains_id(ids: &Vec<u64>, id: u64) -> (r: bool)
    ensures
        r == ids@.contains(id),
{
    let mut i: usize = 0;
    while i < ids.len()
        invariant
            i <= ids@.len(),
            forall|j: int| 0 <= j < i ==> ids@[j] != id,
        decreases ids@.len() - i,
    {
        if ids[i] == id {
            return true;
        }
        i = i + 1;
    }
    false
}

/// Whether the primary finger of `touch` is among the lifted ones.
pub open spec fn primary_was_released(touch: TouchState, released: Seq<u64>) -> bool {
    match touch.primary_touch_id {
        Some(id) => released.contains(id),
        None => false,
    }
}

/// Recognises the touch gestures of this tick, as [`gesture_step`]
/// describes, from the ids of the fingers lifted on this tick.
pub fn handle_touch_gestures(
    touch_state: &mut TouchState,
    hyperspace_state: &mut HyperspaceState,
    just_released: &Vec<u64>,
    primary_world: Option<Vec2>,
    elapsed_seconds: Fixed,
) -> (events: EffectEvents)
    ensures
        (GestureOutcome {
            touch: *final(touch_state),
            hyperspace: *final(hyperspace_state),
            events,
        }) == gesture_step(
            *old(touch_state),
            *old(hyperspace_state),
            just_released@.len() > 0,
            primary_was_released(*old(touch_state), just_released@),
            primary_world,
            elapsed_seconds,
        ),
{
    let any_released = just_released.len() > 0;
    let primary_released = match touch_state.primary_touch_id {
        Some(id) => contains_id(just_released, id),
        None => false,
    };
    let outcome = gesture_step(
        *touch_state,
        *hyperspace_state,
        any_released,
        primary_released,
        primary_world,
        elapsed_seconds,
    );
    *touch_state = outcome.touch;
    *hyperspace_state = outcome.hyperspace;
    outcome.events
}

} // verus!
