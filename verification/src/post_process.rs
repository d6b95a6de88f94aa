//! Parameters of the post-processing effects: bloom, chromatic aberration,
//! vignette and film grain. The effects themselves belong to the renderer.

use vstd::prelude::*;
use crate::fixed::{Fixed, fx_add, fx_clamp, fx_div, fx_max, fx_mul, fx_sub, ONE};
use crate::resources::PostProcessSettings;

verus! {

/// Bloom intensity that the settings start from.
pub const DEFAULT_BLOOM_INTENSITY: Fixed = 300_000;

/// Largest bloom intensity.
pub const MAX_BLOOM_INTENSITY: Fixed = 1_000_000;

/// Low-frequency boost of the bloom at radius zero.
pub const DEFAULT_BLOOM_LF_BOOST: Fixed = 700_000;

/// Curvature of the low-frequency boost of the bloom.
pub const DEFAULT_BLOOM_LF_BOOST_CURVATURE: Fixed = 950_000;

/// High-pass frequency of the bloom at a threshold of one.
pub const DEFAULT_BLOOM_HIGH_PASS_FREQUENCY: Fixed = 1_000_000;

/// Largest chromatic aberration strength.
pub const MAX_CHROMATIC_ABERRATION: Fixed = 15_000;

/// Largest vignette intensity.
pub const MAX_VIGNETTE_INTENSITY: Fixed = 600_000;

/// Largest film grain amount.
pub const MAX_FILM_GRAIN: Fixed = 100_000;

/// Parameters of the chromatic aberration effect.
#[derive(Clone, Copy, Debug, PartialEq, Eq, Structural)]
pub struct ChromaticAberrationSettings {
    /// Colour channel separation.
    pub strength: Fixed,
    /// Whether the effect is on.
    pub enabled: bool,
}

impl Default for ChromaticAberrationSettings {
    fn default() -> (r: ChromaticAberrationSettings)
        ensures
            r == (ChromaticAberrationSettings {
                strength: 0,
                enabled: true,
            }),
    {
        ChromaticAberrationSettings {
            strength: 0,
            enabled: true,
        }
    }
}

/// Parameters of the vignette effect.
#[derive(Clone, Copy, Debug, PartialEq, Eq, Structural)]
pub struct VignetteSettings {
    /// Darkness at the edges.
    pub intensity: Fixed,
    /// Softness of the falloff.
    pub smoothness: Fixed,
    /// Whether the effect is on.
    pub enabled: bool,
}

impl Default for VignetteSettings {
    fn default() -> (r: VignetteSettings)
        ensures
            r == (VignetteSettings {
                intensity: 300_000,
                smoothness: 500_000,
                enabled: true,
            }),
    {
        VignetteSettings {
            intensity: 300_000,
            smoothness: 500_000,
            enabled: true,
        }
    }
}

/// Parameters of the film grain effect.
#[derive(Clone, Copy, Debug, PartialEq, Eq, Structural)]
pub struct FilmGrainSettings {
    /// Amount of grain noise.
    pub amount: Fixed,
    /// Whether the effect is on.
    pub enabled: bool,
}

impl Default for FilmGrainSettings {
    fn default() -> (r: FilmGrainSettings)
        ensures
            r == (FilmGrainSettings {
                amount: 20_000,
                enabled: true,
            }),
    {
        FilmGrainSettings {
            amount: 20_000,
            enabled: true,
        }
    }
}

/// Parameters of the renderer's bloom effect.
#[derive(Clone, Copy, Debug, PartialEq, Eq, Structural)]
pub struct BloomParameters {
    /// Bloom intensity.
    pub intensity: Fixed,
    /// Boost of the diffuse part.
    pub low_frequency_boost: Fixed,
    /// Curvature of that boost.
    pub low_frequency_boost_curvature: Fixed,
    /// How much of the image blooms.
    pub high_pass_frequency: Fixed,
}

/// The bloom parameters for the settings: the intensity clamped to
/// `[0, 1]`; a low-frequency boost that grows with the radius, by half
/// at sixteen pixels and beyond; a high-pass frequency that grows as the
/// threshold falls.
pub open spec fn bloom_parameters_spec(settings: PostProcessSettings) -> BloomParameters {
    BloomParameters {
        intensity: fx_clamp(settings.bloom_intensity, 0, MAX_BLOOM_INTENSITY),
        low_frequency_boost: fx_mul(
            DEFAULT_BLOOM_LF_BOOST,
            fx_add(
                ONE,
                fx_mul(fx_clamp(fx_div(settings.bloom_radius, 16_000_000), 0, ONE), 500_000),
            ),
        ),
        low_frequency_boost_curvature: DEFAULT_BLOOM_LF_BOOST_CURVATURE,
        high_pass_frequency: fx_mul(
            DEFAULT_BLOOM_HIGH_PASS_FREQUENCY,
            fx_add(ONE, fx_sub(ONE, fx_clamp(settings.bloom_threshold, 0, ONE))),
        ),
    }
}

/// The bloom parameters that the host writes to the camera whenever the
/// settings have changed.
#[verifier::when_used_as_spec(bloom_parameters_spec)]
pub fn bloom_parameters(settings: PostProcessSettings) -> (r: BloomParameters)
    ensures
        r == bloom_parameters_spec(settings),
{
    BloomParameters {
        intensity: fx_clamp(settings.bloom_intensity, 0, MAX_BLOOM_INTENSITY),
        low_frequency_boost: fx_mul(
            DEFAULT_BLOOM_LF_BOOST,
            fx_add(
                ONE,
                fx_mul(fx_clamp(fx_div(settings.bloom_radius, 16_000_000), 0, ONE), 500_000),
            ),
        ),
        low_frequency_boost_curvature: DEFAULT_BLOOM_LF_BOOST_CURVATURE,
        high_pass_frequency: fx_mul(
            DEFAULT_BLOOM_HIGH_PASS_FREQUENCY,
            fx_add(ONE, fx_sub(ONE, fx_clamp(settings.bloom_threshold, 0, ONE))),
        ),
    }
}

/// The bloom parameters that the camera starts with: the clamped
/// intensity of the settings and the default shape.
pub open spec fn initial_bloom_spec(settings: PostProcessSettings) -> BloomParameters {
    BloomParameters {
        intensity: fx_clamp(settings.bloom_intensity, 0, MAX_BLOOM_INTENSITY),
        low_frequency_boost: DEFAULT_BLOOM_LF_BOOST,
        low_frequency_boost_curvature: DEFAULT_BLOOM_LF_BOOST_CURVATURE,
        high_pass_frequency: DEFAULT_BLOOM_HIGH_PASS_FREQUENCY,
    }
}

/// The bloom parameters that the camera starts with: the clamped
/// intensity of the settings and the default shape.
#[verifier::when_used_as_spec(initial_bloom_spec)]
pub fn initial_bloom(settings: PostProcessSettings) -> (r: BloomParameters)
    ensures
        r == initial_bloom_spec(settings),
{
    BloomParameters {
        intensity: fx_clamp(settings.bloom_intensity, 0, MAX_BLOOM_INTENSITY),
        low_frequency_boost: DEFAULT_BLOOM_LF_BOOST,
        low_frequency_boost_curvature: DEFAULT_BLOOM_LF_BOOST_CURVATURE,
        high_pass_frequency: DEFAULT_BLOOM_HIGH_PASS_FREQUENCY,
    }
}

/// The chromatic aberration for the settings: the strength clamped to its
/// maximum, on while the strength is above one ten-thousandth.
pub open spec fn chromatic_aberration_for_spec(settings: PostProcessSettings) -> ChromaticAberrationSettings {
    ChromaticAberrationSettings {
        strength: fx_clamp(settings.chromatic_aberration_strength, 0, MAX_CHROMATIC_ABERRATION),
        enabled: fx_clamp(settings.chromatic_aberration_strength, 0, MAX_CHROMATIC_ABERRATION) > 100,
    }
}

/// The chromatic aberration for the settings: the strength clamped to its
/// maximum, on while the strength is above one ten-thousandth.
#[verifier::when_used_as_spec(chromatic_aberration_for_spec)]
pub fn chromatic_aberration_for(settings: PostProcessSettings) -> (r: ChromaticAberrationSettings)
    ensures
        r == chromatic_aberration_for_spec(settings),
{
    ChromaticAberrationSettings {
        strength: fx_clamp(settings.chromatic_aberration_strength, 0, MAX_CHROMATIC_ABERRATION),
        enabled: fx_clamp(settings.chromatic_aberration_strength, 0, MAX_CHROMATIC_ABERRATION) > 100,
    }
}

/// The vignette for the settings: the intensity clamped to its maximum, on
/// while the intensity is above one hundredth, and the softer the weaker
/// it is: the smoothness runs from 0.3 at full intensity to 0.8 at none.
pub open spec fn vignette_for_spec(settings: PostProcessSettings) -> VignetteSettings {
    VignetteSettings {
        intensity: fx_clamp(settings.vignette_intensity, 0, MAX_VIGNETTE_INTENSITY),
        enabled: fx_clamp(settings.vignette_intensity, 0, MAX_VIGNETTE_INTENSITY) > 10_000,
        smoothness: fx_add(
            300_000,
            fx_mul(
                fx_sub(
                    ONE,
                    fx_div(
                        fx_clamp(settings.vignette_intensity, 0, MAX_VIGNETTE_INTENSITY),
                        MAX_VIGNETTE_INTENSITY,
                    ),
                ),
                500_000,
            ),
        ),
    }
}

/// The vignette for the settings: the intensity clamped to its maximum, on
/// while the intensity is above one hundredth, and the softer the weaker
/// it is: the smoothness runs from 0.3 at full intensity to 0.8 at none.
#[verifier::when_used_as_spec(vignette_for_spec)]
pub fn vignette_for(settings: PostProcessSettings) -> (r: VignetteSettings)
    ensures
        r == vignette_for_spec(settings),
{
    VignetteSettings {
        intensity: fx_clamp(settings.vignette_intensity, 0, MAX_VIGNETTE_INTENSITY),
        enabled: fx_clamp(settings.vignette_intensity, 0, MAX_VIGNETTE_INTENSITY) > 10_000,
        smoothness: fx_add(
            300_000,
            fx_mul(
                fx_sub(
                    ONE,
                    fx_div(
                        fx_clamp(settings.vignette_intensity, 0, MAX_VIGNETTE_INTENSITY),
                        MAX_VIGNETTE_INTENSITY,
                    ),
                ),
                500_000,
            ),
        ),
    }
}

/// The film grain for the settings: the amount clamped to one tenth, on
/// while the amount is above one thousandth.
pub open spec fn film_grain_for_spec(settings: PostProcessSettings) -> FilmGrainSettings {
    FilmGrainSettings {
        amount: fx_clamp(settings.film_grain_amount, 0, MAX_FILM_GRAIN),
        enabled: fx_clamp(settings.film_grain_amount, 0, MAX_FILM_GRAIN) > 1_000,
    }
}

/// The film grain for the settings: the amount clamped to one tenth, on
/// while the amount is above one thousandth.
#[verifier::when_used_as_spec(film_grain_for_spec)]
pub fn film_grain_for(settings: PostProcessSettings) -> (r: FilmGrainSettings)
    ensures
        r == film_grain_for_spec(settings),
{
    FilmGrainSettings {
        amount: fx_clamp(settings.film_grain_amount, 0, MAX_FILM_GRAIN),
        enabled: fx_clamp(settings.film_grain_amount, 0, MAX_FILM_GRAIN) > 1_000,
    }
}

/// Brings the chromatic aberration up to date with the settings.
pub fn update_chromatic_aberration(
    post_process_settings: &PostProcessSettings,
    chromatic_settings: &mut ChromaticAberrationSettings,
)
    ensures
        *final(chromatic_settings) == chromatic_aberration_for(*post_process_settings),
{
    *chromatic_settings = chromatic_aberration_for(*post_process_settings);
}

/// Brings the vignette up to date with the settings.
pub fn update_vignette(
    post_process_settings: &PostProcessSettings,
    vignette_settings: &mut VignetteSettings,
)
    ensures
        *final(vignette_settings) == vignette_for(*post_process_settings),
{
    *vignette_settings = vignette_for(*post_process_settings);
}

/// Brings the film grain up to date with the settings.
pub fn update_film_grain(
    post_process_settings: &PostProcessSettings,
    film_grain_settings: &mut FilmGrainSettings,
)
    ensures
        *final(film_grain_settings) == film_grain_for(*post_process_settings),
{
    *film_grain_settings = film_grain_for(*post_process_settings);
}

/// Bloom parameters of the camera for the settings; the host writes them to
/// the renderer.
pub fn update_bloom(post_process_settings: &PostProcessSettings) -> (bloom: BloomParameters)
    ensures
        bloom == bloom_parameters(*post_process_settings),
{
    bloom_parameters(*post_process_settings)
}

/// Bloom parameters of a camera that has none yet.
pub fn setup_bloom(post_process_settings: &PostProcessSettings) -> (bloom: BloomParameters)
    ensures
        bloom == initial_bloom(*post_process_settings),
{
    initial_bloom(*post_process_settings)
}

/// Recommended post-processing values for a point in an act, as (bloom,
/// chromatic aberration, vignette). The progress is clamped to `[0, 1]`; an
/// index past the last act counts as the last act.
///
/// Bloom rises through the first four acts and eases off in the last,
/// never below 0.3 there. Chromatic aberration appears in the second act,
/// peaks as the fourth begins and is gone at the end. The vignette
/// dissolves from 0.35 to nothing.
pub open spec fn calculate_act_post_process_values_spec(act_index: usize, act_progress: Fixed) -> (Fixed, Fixed, Fixed) {
    let progress = fx_clamp(act_progress, 0, ONE);
    if act_index == 0 {
        (
            fx_add(150_000, fx_mul(progress, 100_000)),
            0,
            fx_sub(350_000, fx_mul(progress, 50_000)),
        )
    } else if act_index == 1 {
        (
            fx_add(250_000, fx_mul(progress, 150_000)),
            fx_mul(progress, 2_000),
            fx_sub(300_000, fx_mul(progress, 50_000)),
        )
    } else if act_index == 2 {
        (
            fx_add(400_000, fx_mul(progress, 300_000)),
            fx_add(2_000, fx_mul(progress, 8_000)),
            fx_sub(250_000, fx_mul(progress, 50_000)),
        )
    } else if act_index == 3 {
        (
            fx_add(600_000, fx_mul(progress, 200_000)),
            fx_sub(10_000, fx_mul(progress, 5_000)),
            fx_sub(200_000, fx_mul(progress, 150_000)),
        )
    } else {
        (
            fx_max(fx_sub(500_000, fx_mul(progress, 200_000)), 300_000),
            fx_max(fx_sub(5_000, fx_mul(progress, 5_000)), 0),
            fx_max(fx_sub(50_000, fx_mul(progress, 50_000)), 0),
        )
    }
}

/// Recommended post-processing values for a point in an act, as (bloom,
/// chromatic aberration, vignette). The progress is clamped to `[0, 1]`; an
/// index past the last act counts as the last act.
///
/// Bloom rises through the first four acts and eases off in the last,
/// never below 0.3 there. Chromatic aberration appears in the second act,
/// peaks as the fourth begins and is gone at the end. The vignette
/// dissolves from 0.35 to nothing.
#[verifier::when_used_as_spec(calculate_act_post_process_values_spec)]
pub fn calculate_act_post_process_values(act_index: usize, act_progress: Fixed) -> (r: (Fixed, Fixed, Fixed))
    ensures
        r == calculate_act_post_process_values_spec(act_index, act_progress),
{
    let progress = fx_clamp(act_progress, 0, ONE);
    if act_index == 0 {
        (
            fx_add(150_000, fx_mul(progress, 100_000)),
            0,
            fx_sub(350_000, fx_mul(progress, 50_000)),
        )
    } else if act_index == 1 {
        (
            fx_add(250_000, fx_mul(progress, 150_000)),
            fx_mul(progress, 2_000),
            fx_sub(300_000, fx_mul(progress, 50_000)),
        )
    } else if act_index == 2 {
        (
            fx_add(400_000, fx_mul(progress, 300_000)),
            fx_add(2_000, fx_mul(progress, 8_000)),
            fx_sub(250_000, fx_mul(progress, 50_000)),
        )
    } else if act_index == 3 {
        (
            fx_add(600_000, fx_mul(progress, 200_000)),
            fx_sub(10_000, fx_mul(progress, 5_000)),
            fx_sub(200_000, fx_mul(progress, 150_000)),
        )
    } else {
        (
            fx_max(fx_sub(500_000, fx_mul(progress, 200_000)), 300_000),
            fx_max(fx_sub(5_000, fx_mul(progress, 5_000)), 0),
            fx_max(fx_sub(50_000, fx_mul(progress, 50_000)), 0),
        )
    }
}

/// Interpolates the three post-processing values from `from` to `to`; `t`
/// is clamped to `[0, 1]`.
pub open spec fn lerp_post_process_values_spec(from: (Fixed, Fixed, Fixed), to: (Fixed, Fixed, Fixed), t: Fixed) -> (Fixed, Fixed, Fixed) {
    (
        fx_add(from.0, fx_mul(fx_sub(to.0, from.0), fx_clamp(t, 0, ONE))),
        fx_add(from.1, fx_mul(fx_sub(to.1, from.1), fx_clamp(t, 0, ONE))),
        fx_add(from.2, fx_mul(fx_sub(to.2, from.2), fx_clamp(t, 0, ONE))),
    )
}

/// Interpolates the three post-processing values from `from` to `to`; `t`
/// is clamped to `[0, 1]`.
#[verifier::when_used_as_spec(lerp_post_process_values_spec)]
pub fn lerp_post_process_values(from: (Fixed, Fixed, Fixed), to: (Fixed, Fixed, Fixed), t: Fixed) -> (r: (Fixed, Fixed, Fixed))
    ensures
        r == lerp_post_process_values_spec(from, to, t),
{
    (
        fx_add(from.0, fx_mul(fx_sub(to.0, from.0), fx_clamp(t, 0, ONE))),
        fx_add(from.1, fx_mul(fx_sub(to.1, from.1), fx_clamp(t, 0, ONE))),
        fx_add(from.2, fx_mul(fx_sub(to.2, from.2), fx_clamp(t, 0, ONE))),
    )
}

} // verus!
