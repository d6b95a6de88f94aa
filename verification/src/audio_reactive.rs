//! The procedural audio signal, beat detection, and the mapping of audio
//! levels to visual parameters.

use vstd::prelude::*;
use crate::components::{ParticleBundle, ParticleVisual, PulseResponder, TAU};
use crate::fixed::{
    Fixed, from_int, fx_add, fx_clamp, fx_div, fx_max, fx_min, fx_mul, fx_rem, fx_sub, ONE,
};
use crate::particle::{BeatDetected, ParticleArena, lemma_same_occupancy_keeps_wf};
use crate::resources::{
    AmbientAudioState, AudioAnalysis, AudioVisualMapping, CurrentBackground, ParticleSpawnQueue,
};
use crate::types::{Act, BeatStrength, FrequencyBand};

verus! {

/// The base of the smoothing power: the smoothing factor clamped to
/// `[0, 0.99]`. The host raises it to the number of sixtieths of a second in
/// the tick to get the retention for [`lerp_smooth`].
pub open spec fn smoothing_base_spec(smoothing: Fixed) -> Fixed {
    fx_clamp(smoothing, 0, 990_000)
}

/// The base of the smoothing power: the smoothing factor clamped to
/// `[0, 0.99]`. The host raises it to the number of sixtieths of a second in
/// the tick to get the retention for [`lerp_smooth`].
#[verifier::when_used_as_spec(smoothing_base_spec)]
pub fn smoothing_base(smoothing: Fixed) -> (r: Fixed)
    ensures
        r == smoothing_base_spec(smoothing),
{
    fx_clamp(smoothing, 0, 990_000)
}

/// Exponential smoothing: moves `current` toward `target` by the share
/// `1 - retention` of the way.
///
/// `retention` is the share of the distance that is kept over the tick:
/// [`smoothing_base`] raised to the number of sixtieths of a second in the
/// tick, a fractional power that the host evaluates. A retention of zero
/// jumps to the target; a retention of one does not move.
pub open spec fn lerp_smooth_spec(current: Fixed, target: Fixed, retention: Fixed) -> Fixed {
    fx_add(current, fx_mul(fx_sub(target, current), fx_sub(ONE, retention)))
}

/// Exponential smoothing: moves `current` toward `target` by the share
/// `1 - retention` of the way.
///
/// `retention` is the share of the distance that is kept over the tick:
/// [`smoothing_base`] raised to the number of sixtieths of a second in the
/// tick, a fractional power that the host evaluates. A retention of zero
/// jumps to the target; a retention of one does not move.
#[verifier::when_used_as_spec(lerp_smooth_spec)]
pub fn lerp_smooth(current: Fixed, target: Fixed, retention: Fixed) -> (r: Fixed)
    ensures
        r == lerp_smooth_spec(current, target, retention),
{
    fx_add(current, fx_mul(fx_sub(target, current), fx_sub(ONE, retention)))
}

/// Maps `value` from the input range to the output range. The position of
/// the value in the input range is clamped to `[0, 1]`, so the result lies
/// between the output bounds; an inverted output range is allowed. An input
/// range of zero width gives `out_min`.
pub open spec fn map_range_spec(value: Fixed, in_min: Fixed, in_max: Fixed, out_min: Fixed, out_max: Fixed) -> Fixed {
    if in_max == in_min {
        out_min
    } else {
        fx_add(
            out_min,
            fx_mul(
                fx_clamp(fx_div(fx_sub(value, in_min), fx_sub(in_max, in_min)), 0, ONE),
                fx_sub(out_max, out_min),
            ),
        )
    }
}

/// Maps `value` from the input range to the output range. The position of
/// the value in the input range is clamped to `[0, 1]`, so the result lies
/// between the output bounds; an inverted output range is allowed. An input
/// range of zero width gives `out_min`.
#[verifier::when_used_as_spec(map_range_spec)]
pub fn map_range(value: Fixed, in_min: Fixed, in_max: Fixed, out_min: Fixed, out_max: Fixed) -> (r: Fixed)
    ensures
        r == map_range_spec(value, in_min, in_max, out_min, out_max),
{
    if in_max == in_min {
        out_min
    } else {
        fx_add(
            out_min,
            fx_mul(
                fx_clamp(fx_div(fx_sub(value, in_min), fx_sub(in_max, in_min)), 0, ONE),
                fx_sub(out_max, out_min),
            ),
        )
    }
}

/// The baseline audio intensity of an act.
pub open spec fn get_act_intensity_factor_spec(act: Act) -> Fixed {
    match act {
        Act::Emergence => 300_000,
        Act::Accumulation => 600_000,
        Act::Crescendo => 1_000_000,
        Act::Release => 700_000,
        Act::Transcendence => 400_000,
    }
}

/// The baseline audio intensity of an act.
#[verifier::when_used_as_spec(get_act_intensity_factor_spec)]
pub fn get_act_intensity_factor(act: Act) -> (r: Fixed)
    ensures
        r == get_act_intensity_factor_spec(act),
{
    match act {
        Act::Emergence => 300_000,
        Act::Accumulation => 600_000,
        Act::Crescendo => 1_000_000,
        Act::Release => 700_000,
        Act::Transcendence => 400_000,
    }
}

/// Six numbers that belong to the six sine waves of the procedural audio
/// signal. The same shape carries the arguments of the sines and their
/// values.
#[derive(Clone, Copy, Debug, PartialEq, Eq, Structural)]
pub struct AudioWaves {
    /// The bass wave, 0.5 cycles per second.
    pub bass: Fixed,
    /// The mid wave, 1.2 cycles per second.
    pub mid: Fixed,
    /// The high wave, 2.5 cycles per second.
    pub high: Fixed,
    /// The shimmer wave, 4 cycles per second.
    pub shimmer: Fixed,
    /// The slow variation, 3.7 radians per second.
    pub noise_slow: Fixed,
    /// The fast variation, 7.3 radians per second.
    pub noise_fast: Fixed,
}

/// The arguments at which the host evaluates the six sines of the
/// procedural audio signal.
pub open spec fn audio_wave_arguments_spec(elapsed_seconds: Fixed) -> AudioWaves {
    AudioWaves {
        bass: fx_mul(fx_mul(elapsed_seconds, 500_000), TAU),
        mid: fx_mul(fx_mul(elapsed_seconds, 1_200_000), TAU),
        high: fx_mul(fx_mul(elapsed_seconds, 2_500_000), TAU),
        shimmer: fx_mul(fx_mul(elapsed_seconds, 4_000_000), TAU),
        noise_slow: fx_mul(elapsed_seconds, 3_700_000),
        noise_fast: fx_mul(elapsed_seconds, 7_300_000),
    }
}

/// The arguments at which the host evaluates the six sines of the
/// procedural audio signal.
#[verifier::when_used_as_spec(audio_wave_arguments_spec)]
pub fn audio_wave_arguments(elapsed_seconds: Fixed) -> (r: AudioWaves)
    ensures
        r == audio_wave_arguments_spec(elapsed_seconds),
{
    AudioWaves {
        bass: fx_mul(fx_mul(elapsed_seconds, 500_000), TAU),
        mid: fx_mul(fx_mul(elapsed_seconds, 1_200_000), TAU),
        high: fx_mul(fx_mul(elapsed_seconds, 2_500_000), TAU),
        shimmer: fx_mul(fx_mul(elapsed_seconds, 4_000_000), TAU),
        noise_slow: fx_mul(elapsed_seconds, 3_700_000),
        noise_fast: fx_mul(elapsed_seconds, 7_300_000),
    }
}

/// A sine value moved from `[-1, 1]` to `[0, 1]`.
pub open spec fn unipolar_spec(sine: Fixed) -> Fixed {
    fx_add(fx_mul(sine, 500_000), 500_000)
}

/// A sine value moved from `[-1, 1]` to `[0, 1]`.
#[verifier::when_used_as_spec(unipolar_spec)]
pub fn unipolar(sine: Fixed) -> (r: Fixed)
    ensures
        r == unipolar_spec(sine),
{
    fx_add(fx_mul(sine, 500_000), 500_000)
}

/// The audio levels of a tick from the six sine values.
///
/// Each band is its wave moved to `[0, 1]`, scaled by the act's intensity
/// and a band weight, with a small variation added, and clamped to
/// `[0, 1]`. The peak is the largest of the three amplitudes. The beat
/// fields are left as they are.
pub open spec fn audio_analysis_for_spec(analysis: AudioAnalysis, act: Act, sines: AudioWaves) -> AudioAnalysis {
    let factor = get_act_intensity_factor(act);
    let bass = unipolar(sines.bass);
    let mid = unipolar(sines.mid);
    let high = unipolar(sines.high);
    let shimmer = unipolar(sines.shimmer);
    let noise_slow = fx_mul(sines.noise_slow, 100_000);
    let noise_fast = fx_mul(sines.noise_fast, 50_000);
    let amplitude_low = fx_clamp(
        fx_add(fx_mul(fx_mul(bass, factor), 700_000), noise_slow),
        0,
        ONE,
    );
    let amplitude_mid = fx_clamp(fx_add(fx_mul(mid, factor), noise_fast), 0, ONE);
    let amplitude_high = fx_clamp(fx_mul(fx_mul(high, factor), 800_000), 0, ONE);
    AudioAnalysis {
        amplitude_low,
        amplitude_mid,
        amplitude_high,
        amplitude_peak: fx_max(fx_max(amplitude_mid, amplitude_high), amplitude_low),
        frequency_bass: fx_clamp(
            fx_add(fx_mul(fx_mul(bass, factor), 800_000), fx_mul(noise_slow, 500_000)),
            0,
            ONE,
        ),
        frequency_mid: fx_clamp(fx_add(fx_mul(fx_mul(mid, factor), 900_000), noise_fast), 0, ONE),
        frequency_high: fx_clamp(fx_mul(fx_mul(high, factor), 700_000), 0, ONE),
        frequency_shimmer: fx_clamp(fx_mul(fx_mul(shimmer, factor), 500_000), 0, ONE),
        ..analysis
    }
}

/// The audio levels of a tick from the six sine values.
///
/// Each band is its wave moved to `[0, 1]`, scaled by the act's intensity
/// and a band weight, with a small variation added, and clamped to
/// `[0, 1]`. The peak is the largest of the three amplitudes. The beat
/// fields are left as they are.
#[verifier::when_used_as_spec(audio_analysis_for_spec)]
pub fn audio_analysis_for(analysis: AudioAnalysis, act: Act, sines: AudioWaves) -> (r: AudioAnalysis)
    ensures
        r == audio_analysis_for_spec(analysis, act, sines),
{
    let factor = get_act_intensity_factor(act);
    let bass = unipolar(sines.bass);
    let mid = unipolar(sines.mid);
    let high = unipolar(sines.high);
    let shimmer = unipolar(sines.shimmer);
    let noise_slow = fx_mul(sines.noise_slow, 100_000);
    let noise_fast = fx_mul(sines.noise_fast, 50_000);
    let amplitude_low = fx_clamp(
        fx_add(fx_mul(fx_mul(bass, factor), 700_000), noise_slow),
        0,
        ONE,
    );
    let amplitude_mid = fx_clamp(fx_add(fx_mul(mid, factor), noise_fast), 0, ONE);
    let amplitude_high = fx_clamp(fx_mul(fx_mul(high, factor), 800_000), 0, ONE);
    AudioAnalysis {
        amplitude_low,
        amplitude_mid,
        amplitude_high,
        amplitude_peak: fx_max(fx_max(amplitude_mid, amplitude_high), amplitude_low),
        frequency_bass: fx_clamp(
            fx_add(fx_mul(fx_mul(bass, factor), 800_000), fx_mul(noise_slow, 500_000)),
            0,
            ONE,
        ),
        frequency_mid: fx_clamp(fx_add(fx_mul(fx_mul(mid, factor), 900_000), noise_fast), 0, ONE),
        frequency_high: fx_clamp(fx_mul(fx_mul(high, factor), 700_000), 0, ONE),
        frequency_shimmer: fx_clamp(fx_mul(fx_mul(shimmer, factor), 500_000), 0, ONE),
        ..analysis
    }
}

/// Generates the audio levels of this tick, as [`audio_analysis_for`]
/// describes. `sines` holds the sines of [`audio_wave_arguments`], which the
/// host evaluates.
pub fn process_audio_input(current_act: Act, audio_analysis: &mut AudioAnalysis, sines: AudioWaves)
    ensures
        *final(audio_analysis) == audio_analysis_for(*old(audio_analysis), current_act, sines),
{
    *audio_analysis = audio_analysis_for(*audio_analysis, current_act, sines);
}

/// The strength class of an amplitude: silence below 0.1, soft below 0.3,
/// medium below 0.6, strong from 0.6 upward.
pub open spec fn classify_beat_strength_spec(amplitude: Fixed) -> BeatStrength {
    BeatStrength::from_amplitude(amplitude)
}

/// The strength class of an amplitude: silence below 0.1, soft below 0.3,
/// medium below 0.6, strong from 0.6 upward.
#[verifier::when_used_as_spec(classify_beat_strength_spec)]
pub fn classify_beat_strength(amplitude: Fixed) -> (r: BeatStrength)
    ensures
        r == classify_beat_strength_spec(amplitude),
{
    BeatStrength::from_amplitude(amplitude)
}

/// The argument at which the host evaluates the sine that sways the beat
/// period.
pub open spec fn beat_period_argument_spec(elapsed_seconds: Fixed) -> Fixed {
    fx_mul(elapsed_seconds, 100_000)
}

/// The argument at which the host evaluates the sine that sways the beat
/// period.
#[verifier::when_used_as_spec(beat_period_argument_spec)]
pub fn beat_period_argument(elapsed_seconds: Fixed) -> (r: Fixed)
    ensures
        r == beat_period_argument_spec(elapsed_seconds),
{
    fx_mul(elapsed_seconds, 100_000)
}

/// The beat period in seconds: 0.9 swayed by up to 0.15 either way.
pub open spec fn beat_period_spec(period_sine: Fixed) -> Fixed {
    fx_add(900_000, fx_mul(period_sine, 150_000))
}

/// The beat period in seconds: 0.9 swayed by up to 0.15 either way.
#[verifier::when_used_as_spec(beat_period_spec)]
pub fn beat_period(period_sine: Fixed) -> (r: Fixed)
    ensures
        r == beat_period_spec(period_sine),
{
    fx_add(900_000, fx_mul(period_sine, 150_000))
}

/// Whether the time falls into the attack of a beat: the first tenth of the
/// beat period. A period that is not positive has no beats.
pub open spec fn is_on_beat_spec(elapsed_seconds: Fixed, period_sine: Fixed) -> bool {
    beat_period(period_sine) > 0 && fx_div(
        fx_rem(elapsed_seconds, beat_period(period_sine)),
        beat_period(period_sine),
    ) < 100_000
}

/// Whether the time falls into the attack of a beat: the first tenth of the
/// beat period. A period that is not positive has no beats.
#[verifier::when_used_as_spec(is_on_beat_spec)]
pub fn is_on_beat(elapsed_seconds: Fixed, period_sine: Fixed) -> (r: bool)
    ensures
        r == is_on_beat_spec(elapsed_seconds, period_sine),
{
    beat_period(period_sine) > 0 && fx_div(
        fx_rem(elapsed_seconds, beat_period(period_sine)),
        beat_period(period_sine),
    ) < 100_000
}

/// Detects the beat of this tick.
///
/// The strength class of the peak amplitude is recorded. A beat is
/// detected when the time falls into the attack of the beat period and the
/// class is not silence; the beat is then reported with that class.
/// `period_sine` is the sine of [`beat_period_argument`], which the host
/// evaluates.
pub fn detect_beats(
    elapsed_seconds: Fixed,
    audio_analysis: &mut AudioAnalysis,
    period_sine: Fixed,
) -> (beat: Option<BeatDetected>)
    ensures
        *final(audio_analysis) == (AudioAnalysis {
            beat_strength: classify_beat_strength(old(audio_analysis).amplitude_peak),
            beat_detected: is_on_beat(elapsed_seconds, period_sine) && classify_beat_strength(
                old(audio_analysis).amplitude_peak,
            ) != BeatStrength::Silence,
            ..*old(audio_analysis)
        }),
        beat == (if final(audio_analysis).beat_detected {
            Some(BeatDetected { strength: final(audio_analysis).beat_strength })
        } else {
            None
        }),
{
    let strength = classify_beat_strength(audio_analysis.amplitude_peak);
    let detected = is_on_beat(elapsed_seconds, period_sine) && strength != BeatStrength::Silence;
    audio_analysis.beat_detected = detected;
    audio_analysis.beat_strength = strength;
    if detected {
        Some(BeatDetected { strength })
    } else {
        None
    }
}

/// Retention of the spawn rate smoothing: a smoothing factor of 0.2 over
/// one sixtieth of a second.
pub const SPAWN_RATE_RETENTION: Fixed = 200_000;

/// Moves the audio-driven spawn rate toward the rate that the mid energy
/// calls for: the energy mapped from `[0, 1]` to the configured rate range,
/// approached with a retention of 0.2.
pub fn apply_audio_to_spawn_rate(
    audio_analysis: &AudioAnalysis,
    mapping: &AudioVisualMapping,
    spawn_queue: &mut ParticleSpawnQueue,
)
    ensures
        final(spawn_queue).pending_spawns == old(spawn_queue).pending_spawns,
        final(spawn_queue).spawn_accumulator == old(spawn_queue).spawn_accumulator,
        final(spawn_queue).spawn_rate_per_second == lerp_smooth(
            old(spawn_queue).spawn_rate_per_second,
            map_range(
                audio_analysis.frequency_mid,
                0,
                ONE,
                mapping.frequency_to_spawn_rate_range.0,
                mapping.frequency_to_spawn_rate_range.1,
            ),
            SPAWN_RATE_RETENTION,
        ),
{
    let target = map_range(
        audio_analysis.frequency_mid,
        0,
        ONE,
        mapping.frequency_to_spawn_rate_range.0,
        mapping.frequency_to_spawn_rate_range.1,
    );
    spawn_queue.spawn_rate_per_second = lerp_smooth(
        spawn_queue.spawn_rate_per_second,
        target,
        SPAWN_RATE_RETENTION,
    );
}

/// The level that drives a frequency band.
pub open spec fn get_amplitude_for_band_spec(analysis: AudioAnalysis, band: FrequencyBand) -> Fixed {
    match band {
        FrequencyBand::Bass => analysis.amplitude_low,
        FrequencyBand::Mid => analysis.amplitude_mid,
        FrequencyBand::High => analysis.amplitude_high,
        FrequencyBand::Shimmer => analysis.frequency_shimmer,
    }
}

/// The level that drives a frequency band.
#[verifier::when_used_as_spec(get_amplitude_for_band_spec)]
pub fn get_amplitude_for_band(analysis: AudioAnalysis, band: FrequencyBand) -> (r: Fixed)
    ensures
        r == get_amplitude_for_band_spec(analysis, band),
{
    match band {
        FrequencyBand::Bass => analysis.amplitude_low,
        FrequencyBand::Mid => analysis.amplitude_mid,
        FrequencyBand::High => analysis.amplitude_high,
        FrequencyBand::Shimmer => analysis.frequency_shimmer,
    }
}

/// The level that a particle hears: the level of its band times its
/// sensitivity.
pub open spec fn scaled_amplitude_spec(p: ParticleBundle, analysis: AudioAnalysis) -> Fixed {
    fx_mul(
        get_amplitude_for_band(analysis, p.audio_reactive.frequency_band),
        p.audio_reactive.amplitude_sensitivity,
    )
}

/// The level that a particle hears: the level of its band times its
/// sensitivity.
#[verifier::when_used_as_spec(scaled_amplitude_spec)]
pub fn scaled_amplitude(p: ParticleBundle, analysis: AudioAnalysis) -> (r: Fixed)
    ensures
        r == scaled_amplitude_spec(p, analysis),
{
    fx_mul(
        get_amplitude_for_band(analysis, p.audio_reactive.frequency_band),
        p.audio_reactive.amplitude_sensitivity,
    )
}

/// The particle with opacity, scale and bloom moved toward what its audio
/// level calls for: the level mapped from `[0, 1]` to the configured range of
/// each, approached by [`lerp_smooth`] with `retention`.
pub open spec fn audio_modulated_spec(p: ParticleBundle, analysis: AudioAnalysis, mapping: AudioVisualMapping, retention: Fixed) -> ParticleBundle {
    let level = scaled_amplitude(p, analysis);
    ParticleBundle {
        visual: ParticleVisual {
            opacity: lerp_smooth(
                p.visual.opacity,
                map_range(
                    level,
                    0,
                    ONE,
                    mapping.amplitude_to_opacity_range.0,
                    mapping.amplitude_to_opacity_range.1,
                ),
                retention,
            ),
            scale: lerp_smooth(
                p.visual.scale,
                map_range(
                    level,
                    0,
                    ONE,
                    mapping.amplitude_to_scale_range.0,
                    mapping.amplitude_to_scale_range.1,
                ),
                retention,
            ),
            bloom_contribution: lerp_smooth(
                p.visual.bloom_contribution,
                map_range(
                    level,
                    0,
                    ONE,
                    mapping.amplitude_to_bloom_range.0,
                    mapping.amplitude_to_bloom_range.1,
                ),
                retention,
            ),
            ..p.visual
        },
        ..p
    }
}

/// The particle with opacity, scale and bloom moved toward what its audio
/// level calls for: the level mapped from `[0, 1]` to the configured range of
/// each, approached by [`lerp_smooth`] with `retention`.
#[verifier::when_used_as_spec(audio_modulated_spec)]
pub fn audio_modulated(p: ParticleBundle, analysis: AudioAnalysis, mapping: AudioVisualMapping, retention: Fixed) -> (r: ParticleBundle)
    ensures
        r == audio_modulated_spec(p, analysis, mapping, retention),
{
    let level = scaled_amplitude(p, analysis);
    ParticleBundle {
        visual: ParticleVisual {
            opacity: lerp_smooth(
                p.visual.opacity,
                map_range(
                    level,
                    0,
                    ONE,
                    mapping.amplitude_to_opacity_range.0,
                    mapping.amplitude_to_opacity_range.1,
                ),
                retention,
            ),
            scale: lerp_smooth(
                p.visual.scale,
                map_range(
                    level,
                    0,
                    ONE,
                    mapping.amplitude_to_scale_range.0,
                    mapping.amplitude_to_scale_range.1,
                ),
                retention,
            ),
            bloom_contribution: lerp_smooth(
                p.visual.bloom_contribution,
                map_range(
                    level,
                    0,
                    ONE,
                    mapping.amplitude_to_bloom_range.0,
                    mapping.amplitude_to_bloom_range.1,
                ),
                retention,
            ),
            ..p.visual
        },
        ..p
    }
}

/// The saturation that a particle's colour moves to: from its current
/// saturation toward the saturation of its base colour times the level
/// mapped to the configured saturation range, approached by [`lerp_smooth`]
/// with `retention`. The host converts between the display colour and its
/// hue, saturation and lightness.
pub open spec fn audio_saturation_spec(current_saturation: Fixed, base_saturation: Fixed, level: Fixed, mapping: AudioVisualMapping, retention: Fixed) -> Fixed {
    lerp_smooth(
        current_saturation,
        fx_mul(
            base_saturation,
            map_range(
                level,
                0,
                ONE,
                mapping.amplitude_to_saturation_range.0,
                mapping.amplitude_to_saturation_range.1,
            ),
        ),
        retention,
    )
}

/// The saturation that a particle's colour moves to: from its current
/// saturation toward the saturation of its base colour times the level
/// mapped to the configured saturation range, approached by [`lerp_smooth`]
/// with `retention`. The host converts between the display colour and its
/// hue, saturation and lightness.
#[verifier::when_used_as_spec(audio_saturation_spec)]
pub fn audio_saturation(current_saturation: Fixed, base_saturation: Fixed, level: Fixed, mapping: AudioVisualMapping, retention: Fixed) -> (r: Fixed)
    ensures
        r == audio_saturation_spec(current_saturation, base_saturation, level, mapping, retention),
{
    lerp_smooth(
        current_saturation,
        fx_mul(
            base_saturation,
            map_range(
                level,
                0,
                ONE,
                mapping.amplitude_to_saturation_range.0,
                mapping.amplitude_to_saturation_range.1,
            ),
        ),
        retention,
    )
}

/// The retention of slot `i`: the host's value, or one (no movement) where
/// the host supplied none.
pub open spec fn retention_at(retentions: Seq<Fixed>, i: int) -> Fixed {
    if 0 <= i < retentions.len() {
        retentions[i]
    } else {
        ONE
    }
}

/// Moves opacity, scale and bloom of every particle, active or not, toward
/// what its audio level calls for, as [`audio_modulated`] describes.
///
/// `retentions[i]` is the retention of slot `i`: [`smoothing_base`] of the
/// particle's response smoothing raised to the number of sixtieths of a
/// second in the tick, which the host evaluates. A slot without a retention
/// does not move.
pub fn apply_audio_to_visuals(arena: &mut ParticleArena, audio_analysis: &AudioAnalysis, mapping: &AudioVisualMapping, retentions: &Vec<Fixed>)
    ensures
        final(arena).pool == old(arena).pool,
        final(arena).particles@.len() == old(arena).particles@.len(),
        forall|i: int|
            0 <= i < old(arena).particles@.len() ==> #[trigger] final(arena).particles@[i]
                == audio_modulated(old(arena).particles@[i], *audio_analysis, *mapping, retention_at(retentions@, i)),
        old(arena).wf() ==> final(arena).wf(),
{
    let count: usize = arena.particles.len();
    let mut i: usize = 0;
    while i < count
        invariant
            i <= count,
            count == arena.particles@.len(),
            count == old(arena).particles@.len(),
            arena.pool == old(arena).pool,
            forall|j: int|
                0 <= j < i ==> #[trigger] arena.particles@[j] == audio_modulated(old(arena).particles@[j], *audio_analysis, *mapping, retention_at(retentions@, j)),
            forall|j: int| i <= j < count ==> arena.particles@[j] == old(arena).particles@[j],
        decreases count - i,
    {
        let stepped = audio_modulated(arena.particles[i], *audio_analysis, *mapping, if i < retentions.len() { retentions[i] } else { ONE });
        arena.particles[i] = stepped;
        i = i + 1;
    }
    proof {
        if old(arena).wf() {
            lemma_same_occupancy_keeps_wf(old(arena), arena);
        }
    }
}

/// The phase of a particle's breathing pulse: its age in seconds times 1.5
/// turns per second. Particles of different ages breathe out of step.
pub open spec fn pulse_argument_spec(p: ParticleBundle) -> Fixed {
    fx_mul(
        fx_mul(
            fx_div(
                fx_sub(p.state.lifetime_total_ms, p.state.lifetime_remaining_ms),
                1_000_000_000,
            ),
            1_500_000,
        ),
        TAU,
    )
}

/// The phase of a particle's breathing pulse: its age in seconds times 1.5
/// turns per second. Particles of different ages breathe out of step.
#[verifier::when_used_as_spec(pulse_argument_spec)]
pub fn pulse_argument(p: ParticleBundle) -> (r: Fixed)
    ensures
        r == pulse_argument_spec(p),
{
    fx_mul(
        fx_mul(
            fx_div(
                fx_sub(p.state.lifetime_total_ms, p.state.lifetime_remaining_ms),
                1_000_000_000,
            ),
            1_500_000,
        ),
        TAU,
    )
}

/// The strength of a particle's breathing pulse: the sine moved to `[0, 1]`
/// times an intensity that falls from 1 at birth to 0.3 at the end of the
/// particle's life.
pub open spec fn pulse_value_spec(p: ParticleBundle, pulse_sine: Fixed) -> Fixed {
    fx_mul(
        unipolar(pulse_sine),
        fx_max(
            fx_sub(
                ONE,
                fx_mul(
                    fx_sub(ONE, fx_div(p.state.lifetime_remaining_ms, p.state.lifetime_total_ms)),
                    700_000,
                ),
            ),
            0,
        ),
    )
}

/// The strength of a particle's breathing pulse: the sine moved to `[0, 1]`
/// times an intensity that falls from 1 at birth to 0.3 at the end of the
/// particle's life.
#[verifier::when_used_as_spec(pulse_value_spec)]
pub fn pulse_value(p: ParticleBundle, pulse_sine: Fixed) -> (r: Fixed)
    ensures
        r == pulse_value_spec(p, pulse_sine),
{
    fx_mul(
        unipolar(pulse_sine),
        fx_max(
            fx_sub(
                ONE,
                fx_mul(
                    fx_sub(ONE, fx_div(p.state.lifetime_remaining_ms, p.state.lifetime_total_ms)),
                    700_000,
                ),
            ),
            0,
        ),
    )
}

/// The particle after its breathing pulse was applied.
///
/// A particle that is inactive or was given no lifetime has its scale
/// modifier reset to one. Otherwise the modifier is one plus 0.15 times
/// [`pulse_value`], and while the pulse is above 0.3 the bloom grows by a
/// tenth of it, capped at one.
pub open spec fn pulsed_spec(p: ParticleBundle, pulse_sine: Fixed) -> ParticleBundle {
    if !p.state.active || p.state.lifetime_total_ms <= 0 {
        ParticleBundle {
            pulse_responder: PulseResponder { current_scale_modifier: ONE, ..p.pulse_responder },
            ..p
        }
    } else {
        let pulse = pulse_value(p, pulse_sine);
        ParticleBundle {
            pulse_responder: PulseResponder {
                current_scale_modifier: fx_add(ONE, fx_mul(pulse, 150_000)),
                ..p.pulse_responder
            },
            visual: ParticleVisual {
                bloom_contribution: if pulse > 300_000 {
                    fx_min(fx_add(p.visual.bloom_contribution, fx_mul(pulse, 100_000)), ONE)
                } else {
                    p.visual.bloom_contribution
                },
                ..p.visual
            },
            ..p
        }
    }
}

/// The particle after its breathing pulse was applied.
///
/// A particle that is inactive or was given no lifetime has its scale
/// modifier reset to one. Otherwise the modifier is one plus 0.15 times
/// [`pulse_value`], and while the pulse is above 0.3 the bloom grows by a
/// tenth of it, capped at one.
#[verifier::when_used_as_spec(pulsed_spec)]
pub fn pulsed(p: ParticleBundle, pulse_sine: Fixed) -> (r: ParticleBundle)
    ensures
        r == pulsed_spec(p, pulse_sine),
{
    if !p.state.active || p.state.lifetime_total_ms <= 0 {
        ParticleBundle {
            pulse_responder: PulseResponder { current_scale_modifier: ONE, ..p.pulse_responder },
            ..p
        }
    } else {
        let pulse = pulse_value(p, pulse_sine);
        ParticleBundle {
            pulse_responder: PulseResponder {
                current_scale_modifier: fx_add(ONE, fx_mul(pulse, 150_000)),
                ..p.pulse_responder
            },
            visual: ParticleVisual {
                bloom_contribution: if pulse > 300_000 {
                    fx_min(fx_add(p.visual.bloom_contribution, fx_mul(pulse, 100_000)), ONE)
                } else {
                    p.visual.bloom_contribution
                },
                ..p.visual
            },
            ..p
        }
    }
}

/// The sample of slot `i`: the host's value, or zero where the host
/// supplied none.
pub open spec fn sine_at(sines: Seq<Fixed>, i: int) -> Fixed {
    if 0 <= i < sines.len() {
        sines[i]
    } else {
        0
    }
}

/// The pulse phase of every slot, by id. The host takes the sine of each
/// for [`apply_pulse_effect`].
pub fn pulse_arguments_of(arena: &ParticleArena) -> (r: Vec<Fixed>)
    ensures
        r@.len() == arena.particles@.len(),
        forall|i: int| 0 <= i < r@.len() ==> #[trigger] r@[i] == pulse_argument(arena.particles@[i]),
{
    let mut out: Vec<Fixed> = Vec::new();
    let count: usize = arena.particles.len();
    let mut i: usize = 0;
    while i < count
        invariant
            i <= count,
            count == arena.particles@.len(),
            out@.len() == i,
            forall|j: int| 0 <= j < i ==> #[trigger] out@[j] == pulse_argument(arena.particles@[j]),
        decreases count - i,
    {
        out.push(pulse_argument(arena.particles[i]));
        i = i + 1;
    }
    out
}

/// Applies the breathing pulse to every particle, as [`pulsed`] describes.
/// `pulse_sines[i]` is the sine of [`pulse_argument`] for slot `i`, which the
/// host evaluates; a slot without a sample is treated as a sine of zero.
pub fn apply_pulse_effect(arena: &mut ParticleArena, pulse_sines: &Vec<Fixed>)
    ensures
        final(arena).pool == old(arena).pool,
        final(arena).particles@.len() == old(arena).particles@.len(),
        forall|i: int|
            0 <= i < old(arena).particles@.len() ==> #[trigger] final(arena).particles@[i]
                == pulsed(old(arena).particles@[i], sine_at(pulse_sines@, i)),
        old(arena).wf() ==> final(arena).wf(),
{
    let count: usize = arena.particles.len();
    let mut i: usize = 0;
    while i < count
        invariant
            i <= count,
            count == arena.particles@.len(),
            count == old(arena).particles@.len(),
            arena.pool == old(arena).pool,
            forall|j: int|
                0 <= j < i ==> #[trigger] arena.particles@[j] == pulsed(old(arena).particles@[j], sine_at(pulse_sines@, j)),
            forall|j: int| i <= j < count ==> arena.particles@[j] == old(arena).particles@[j],
        decreases count - i,
    {
        let stepped = pulsed(arena.particles[i], if i < pulse_sines.len() { pulse_sines[i] } else { 0 });
        arena.particles[i] = stepped;
        i = i + 1;
    }
    proof {
        if old(arena).wf() {
            lemma_same_occupancy_keeps_wf(old(arena), arena);
        }
    }
}

/// Moves the background pulse toward what the bass energy calls for: the
/// energy mapped from `[0, 1]` to `[0, 0.15]`, approached by
/// [`lerp_smooth`] with `retention`, which belongs to a smoothing factor of
/// 0.3. The gradient is left alone.
pub fn apply_background_pulse(
    audio_analysis: &AudioAnalysis,
    background: &mut CurrentBackground,
    retention: Fixed,
)
    ensures
        *final(background) == (CurrentBackground {
            pulse_intensity: lerp_smooth(
                old(background).pulse_intensity,
                map_range(audio_analysis.frequency_bass, 0, ONE, 0, 150_000),
                retention,
            ),
            ..*old(background)
        }),
{
    let target = map_range(audio_analysis.frequency_bass, 0, ONE, 0, 150_000);
    background.pulse_intensity = lerp_smooth(background.pulse_intensity, target, retention);
}

/// Smoothing factor of the ambient volume while it rises.
pub const AMBIENT_FADE_IN_SMOOTHING: Fixed = 300_000;

/// Smoothing factor of the ambient volume while it falls.
pub const AMBIENT_FADE_OUT_SMOOTHING: Fixed = 150_000;

/// What the host must do with the ambient loop.
#[derive(Clone, Copy, Debug, PartialEq, Eq, Structural)]
pub enum AmbientAction {
    /// Leave the loop as it is.
    Keep,
    /// Start playing the loop, silent at first.
    Start,
    /// Stop the loop and release the audio device.
    Stop,
}

/// The volume that a particle count calls for: silent below the threshold
/// count, then rising linearly to the maximum volume at the full-volume
/// count. Where the full-volume count is not above the threshold, the
/// maximum volume applies from the threshold on.
pub open spec fn ambient_target_volume_spec(active_count: u32, state: AmbientAudioState) -> Fixed {
    if active_count < state.particle_threshold {
        0
    } else if state.particle_full_volume <= state.particle_threshold {
        state.max_volume
    } else {
        fx_mul(
            fx_clamp(
                fx_div(
                    from_int((active_count - state.particle_threshold) as i64),
                    from_int((state.particle_full_volume - state.particle_threshold) as i64),
                ),
                0,
                ONE,
            ),
            state.max_volume,
        )
    }
}

/// The volume that a particle count calls for: silent below the threshold
/// count, then rising linearly to the maximum volume at the full-volume
/// count. Where the full-volume count is not above the threshold, the
/// maximum volume applies from the threshold on.
#[verifier::when_used_as_spec(ambient_target_volume_spec)]
pub fn ambient_target_volume(active_count: u32, state: AmbientAudioState) -> (r: Fixed)
    ensures
        r == ambient_target_volume_spec(active_count, state),
{
    if active_count < state.particle_threshold {
        0
    } else if state.particle_full_volume <= state.particle_threshold {
        state.max_volume
    } else {
        fx_mul(
            fx_clamp(
                fx_div(
                    from_int((active_count - state.particle_threshold) as i64),
                    from_int((state.particle_full_volume - state.particle_threshold) as i64),
                ),
                0,
                ONE,
            ),
            state.max_volume,
        )
    }
}

/// What the host must do with the loop: start it when a volume above one
/// thousandth is called for and it is not playing (and the clip is
/// loaded); stop it when no volume is called for and the current volume has
/// faded below one thousandth; else nothing.
pub open spec fn ambient_action_spec(state: AmbientAudioState, target: Fixed, can_start: bool) -> AmbientAction {
    if target > 1_000 && !state.is_playing {
        if can_start {
            AmbientAction::Start
        } else {
            AmbientAction::Keep
        }
    } else if target <= 1_000 && state.is_playing && state.current_volume < 1_000 {
        AmbientAction::Stop
    } else {
        AmbientAction::Keep
    }
}

/// What the host must do with the loop: start it when a volume above one
/// thousandth is called for and it is not playing (and the clip is
/// loaded); stop it when no volume is called for and the current volume has
/// faded below one thousandth; else nothing.
#[verifier::when_used_as_spec(ambient_action_spec)]
pub fn ambient_action(state: AmbientAudioState, target: Fixed, can_start: bool) -> (r: AmbientAction)
    ensures
        r == ambient_action_spec(state, target, can_start),
{
    if target > 1_000 && !state.is_playing {
        if can_start {
            AmbientAction::Start
        } else {
            AmbientAction::Keep
        }
    } else if target <= 1_000 && state.is_playing && state.current_volume < 1_000 {
        AmbientAction::Stop
    } else {
        AmbientAction::Keep
    }
}

/// The ambient state after one tick.
///
/// The target volume follows the particle count. The loop counts as
/// playing after a start and as not playing after a stop. The current
/// volume moves toward the target by [`lerp_smooth`], with the fade-in
/// retention while the target is above it and the fade-out retention
/// otherwise, so that the loop fades in more slowly than it fades out.
pub open spec fn ambient_state_after_spec(state: AmbientAudioState, active_count: u32, can_start: bool, fade_in_retention: Fixed, fade_out_retention: Fixed) -> AmbientAudioState {
    let target = ambient_target_volume(active_count, state);
    AmbientAudioState {
        target_volume: target,
        is_playing: match ambient_action(state, target, can_start) {
            AmbientAction::Start => true,
            AmbientAction::Stop => false,
            AmbientAction::Keep => state.is_playing,
        },
        current_volume: lerp_smooth(
            state.current_volume,
            target,
            if target > state.current_volume {
                fade_in_retention
            } else {
                fade_out_retention
            },
        ),
        ..state
    }
}

/// The ambient state after one tick.
///
/// The target volume follows the particle count. The loop counts as
/// playing after a start and as not playing after a stop. The current
/// volume moves toward the target by [`lerp_smooth`], with the fade-in
/// retention while the target is above it and the fade-out retention
/// otherwise, so that the loop fades in more slowly than it fades out.
#[verifier::when_used_as_spec(ambient_state_after_spec)]
pub fn ambient_state_after(state: AmbientAudioState, active_count: u32, can_start: bool, fade_in_retention: Fixed, fade_out_retention: Fixed) -> (r: AmbientAudioState)
    ensures
        r == ambient_state_after_spec(state, active_count, can_start, fade_in_retention, fade_out_retention),
{
    let target = ambient_target_volume(active_count, state);
    AmbientAudioState {
        target_volume: target,
        is_playing: match ambient_action(state, target, can_start) {
            AmbientAction::Start => true,
            AmbientAction::Stop => false,
            AmbientAction::Keep => state.is_playing,
        },
        current_volume: lerp_smooth(
            state.current_volume,
            target,
            if target > state.current_volume {
                fade_in_retention
            } else {
                fade_out_retention
            },
        ),
        ..state
    }
}

/// Updates the ambient loop for the number of active particles and tells
/// the host what to do with the loop.
///
/// `can_start` says whether the clip is loaded. The two retentions belong
/// to [`AMBIENT_FADE_IN_SMOOTHING`] and [`AMBIENT_FADE_OUT_SMOOTHING`]; the
/// host evaluates them for the tick's duration. After the call the host
/// sets the volume of the playing loop to the state's current volume.
pub fn update_ambient_audio(
    active_count: u32,
    ambient_state: &mut AmbientAudioState,
    can_start: bool,
    fade_in_retention: Fixed,
    fade_out_retention: Fixed,
) -> (action: AmbientAction)
    ensures
        action == ambient_action(
            *old(ambient_state),
            ambient_target_volume(active_count, *old(ambient_state)),
            can_start,
        ),
        *final(ambient_state) == ambient_state_after(
            *old(ambient_state),
            active_count,
            can_start,
            fade_in_retention,
            fade_out_retention,
        ),
{
    let target = ambient_target_volume(active_count, *ambient_state);
    let action = ambient_action(*ambient_state, target, can_start);
    *ambient_state = ambient_state_after(
        *ambient_state,
        active_count,
        can_start,
        fade_in_retention,
        fade_out_retention,
    );
    action
}

} // verus!
