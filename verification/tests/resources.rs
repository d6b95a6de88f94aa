use whirled_peas::color::Srgba;
use whirled_peas::resources::{
    ActState, ActTimings, AmbientAudioState, AudioAnalysis, AudioVisualMapping,
    BackgroundGradients, ColorPalette, CurrentBackground, CurrentInteractionMode,
    InteractionConfig, InterpolatedActValues, MotionTiming, MouseState, ParticlePool,
    ParticleSpawnQueue, ParticleSpawnRequest, PerformanceMetrics, PostProcessSettings,
};
use whirled_peas::types::{
    Act, BeatStrength, FalloffType, InteractionMode, ParticleBehaviorType, SpawnSource,
};
use whirled_peas::vector::Vec2;

fn fx(v: f64) -> i64 {
    (v * 1_000_000.0).round() as i64
}

#[test]
fn test_act_state_default() {
    let state = ActState::default();
    assert!(matches!(state.current_act, Act::Emergence));
    assert_eq!(state.act_progress, fx(0.0));
    assert_eq!(state.total_elapsed_seconds, fx(0.0));
    assert!(!state.is_transitioning);
}

#[test]
fn test_act_timings_boundaries() {
    let timings = ActTimings::default();
    // Verify act boundaries are in ascending order
    for i in 0..5 {
        assert!(timings.act_boundaries_seconds[i] < timings.act_boundaries_seconds[i + 1]);
    }
    // Verify total duration is 15 minutes (900 seconds)
    assert_eq!(timings.act_boundaries_seconds[5], fx(900.0));
}

#[test]
fn test_color_palette_valid_colors() {
    let palette = ColorPalette::default();
    // All colors should be valid sRGB values (components between 0 and 1)
    let check_color = |c: Srgba| {
        assert!(c.red >= fx(0.0) && c.red <= fx(1.0));
        assert!(c.green >= fx(0.0) && c.green <= fx(1.0));
        assert!(c.blue >= fx(0.0) && c.blue <= fx(1.0));
    };
    check_color(palette.primary_initial);
    check_color(palette.primary_midpoint);
    check_color(palette.primary_final);
}

#[test]
fn test_particle_pool_capacity() {
    let pool = ParticlePool::default();
    assert_eq!(pool.pool_capacity, 15000);
    assert_eq!(pool.max_active, 10000);
    assert!(pool.max_active <= pool.pool_capacity);
}

#[test]
fn test_audio_visual_mapping_ranges() {
    let mapping = AudioVisualMapping::default();
    // Verify all ranges have min < max
    assert!(mapping.amplitude_to_opacity_range.0 < mapping.amplitude_to_opacity_range.1);
    assert!(mapping.amplitude_to_saturation_range.0 < mapping.amplitude_to_saturation_range.1);
    assert!(mapping.amplitude_to_scale_range.0 < mapping.amplitude_to_scale_range.1);
}

#[test]
fn test_interaction_config_radius() {
    let config = InteractionConfig::default();
    assert!(config.base_radius <= config.max_radius);
    assert!(config.current_radius >= config.base_radius);
}

#[test]
fn resource_defaults() {
    let timings = ActTimings::default();
    assert_eq!(
        timings.act_boundaries_seconds,
        [0, fx(180.0), fx(420.0), fx(600.0), fx(780.0), fx(900.0)]
    );
    assert_eq!(timings.transition_duration_ms, fx(2000.0));
    let state = ActState::default();
    assert_eq!(state.transition_progress, 0);

    let values = InterpolatedActValues::default();
    assert_eq!(values.background_color_start, Srgba::rgb(fx(0.102), fx(0.102), fx(0.180)));
    assert_eq!(values.background_color_end, Srgba::rgb(fx(0.051), fx(0.051), fx(0.102)));
    assert_eq!(values.particle_behavior, ParticleBehaviorType::Drift);
    assert_eq!(values.interaction_mode, InteractionMode::Paint);
    assert_eq!(values.saturation_multiplier, fx(1.0));
    assert_eq!(values.density_target, fx(0.3));

    let palette = ColorPalette::default();
    assert_eq!(palette.primary_midpoint, Srgba::rgb(fx(0.769), fx(0.118), fx(0.227)));
    assert_eq!(palette.accent_spark, Srgba::rgb(fx(1.0), fx(0.420), fx(0.420)));
    assert_eq!(palette.accent_hope, Srgba::rgb(fx(1.0), fx(0.918), fx(0.655)));
    assert_eq!(palette.secondary_ethereal, Srgba::rgb(fx(0.910), fx(0.835), fx(0.769)));

    let gradients = BackgroundGradients::default();
    assert_eq!(gradients.gradient_starts[0], Srgba::rgb(fx(0.051), fx(0.051), fx(0.090)));
    assert_eq!(gradients.gradient_ends[4], Srgba::rgb(fx(0.910), fx(0.835), fx(0.769)));
    for act in 0..4 {
        // Each act's gradient starts where the previous one ended.
        assert_eq!(gradients.gradient_ends[act], gradients.gradient_starts[act + 1]);
    }

    let background = CurrentBackground::default();
    assert_eq!(background.gradient_start, gradients.gradient_starts[0]);
    assert_eq!(background.gradient_end, gradients.gradient_ends[0]);
    assert_eq!(background.pulse_intensity, 0);

    let analysis = AudioAnalysis::default();
    assert_eq!(analysis.amplitude_peak, 0);
    assert!(!analysis.beat_detected);
    assert_eq!(analysis.beat_strength, BeatStrength::Silence);

    let mapping = AudioVisualMapping::default();
    assert_eq!(mapping.amplitude_to_opacity_range, (fx(0.3), fx(0.6)));
    assert_eq!(mapping.amplitude_to_saturation_range, (fx(0.4), fx(1.0)));
    assert_eq!(mapping.amplitude_to_scale_range, (fx(1.0), fx(2.5)));
    assert_eq!(mapping.amplitude_to_bloom_range, (fx(0.0), fx(0.8)));
    assert_eq!(mapping.frequency_to_spawn_rate_range, (fx(4.0), fx(40.0)));
    assert_eq!(mapping.frequency_to_hue_shift_range, (fx(-5.0), fx(5.0)));

    let ambient = AmbientAudioState::default();
    assert!(!ambient.is_playing);
    assert_eq!(ambient.max_volume, fx(0.7));
    assert_eq!(ambient.particle_threshold, 5);
    assert_eq!(ambient.particle_full_volume, 50);

    let mouse = MouseState::default();
    assert_eq!(mouse.position, Vec2::zero());
    assert!(!mouse.is_active);
    assert_eq!(mouse.accumulated_interaction, 0);

    let config = InteractionConfig::default();
    assert_eq!(config.base_radius, fx(80.0));
    assert_eq!(config.max_radius, fx(200.0));
    assert_eq!(config.current_radius, fx(80.0));
    assert_eq!(config.falloff_type, FalloffType::Quadratic);
    assert_eq!(CurrentInteractionMode::default().mode, InteractionMode::Paint);

    let pool = ParticlePool::default();
    assert_eq!(pool.available_entities.len(), 15000);
    assert_eq!(pool.available_entities, (0..15000).collect::<Vec<u32>>());
    assert_eq!(pool.active_count, 0);
    assert_eq!(
        pool.active_count as usize + pool.available_entities.len(),
        pool.pool_capacity as usize
    );
    assert!(pool.active_count <= pool.max_active);

    let queue = ParticleSpawnQueue::default();
    assert!(queue.pending_spawns.is_empty());
    assert_eq!(queue.spawn_rate_per_second, fx(10.0));
    assert_eq!(queue.spawn_accumulator, 0);

    let request = ParticleSpawnRequest::default();
    assert_eq!(request.lifetime_ms, fx(5000.0));
    assert_eq!(request.color, Srgba::white());
    assert_eq!(request.source, SpawnSource::Automatic);

    let settings = PostProcessSettings::default();
    assert_eq!(settings.bloom_threshold, fx(0.7));
    assert_eq!(settings.bloom_intensity, fx(0.3));
    assert_eq!(settings.bloom_radius, fx(8.0));
    assert_eq!(settings.chromatic_aberration_strength, 0);
    assert_eq!(settings.vignette_intensity, fx(0.3));
    assert_eq!(settings.film_grain_amount, fx(0.02));

    let timing = MotionTiming::default();
    assert_eq!(timing.base_rhythm_bpm, fx(60.0));
    assert_eq!(timing.transition_duration_ms, fx(800.0));
    assert_eq!(timing.slow_transition_duration_ms, fx(2000.0));
    let metrics = PerformanceMetrics::default();
    assert_eq!(metrics.current_fps, fx(60.0));
    assert_eq!(metrics.frame_time_ms, fx(16.67));
}
