use whirled_peas::audio_reactive::{
    ambient_target_volume, apply_audio_to_spawn_rate, apply_audio_to_visuals,
    apply_background_pulse, apply_pulse_effect, audio_saturation, audio_wave_arguments,
    beat_period_argument, classify_beat_strength, detect_beats, get_act_intensity_factor,
    get_amplitude_for_band, lerp_smooth, map_range, process_audio_input, pulse_argument,
    pulse_arguments_of, smoothing_base, update_ambient_audio, AmbientAction, AudioWaves,
};
use whirled_peas::particle::{spawn_particles_from_queue, BeatDetected, ParticleArena};
use whirled_peas::resources::{
    AmbientAudioState, AudioAnalysis, AudioVisualMapping, CurrentBackground,
    InterpolatedActValues, ParticleSpawnQueue, ParticleSpawnRequest,
};
use whirled_peas::types::{Act, BeatStrength, FrequencyBand};

fn fx(v: f64) -> i64 {
    (v * 1_000_000.0).round() as i64
}

fn fl(v: i64) -> f64 {
    v as f64 / 1_000_000.0
}

const EPSILON: f64 = f32::EPSILON as f64;

/// The retention that the host computes for a smoothing factor and a tick.
fn retention(smoothing: f64, dt: f64) -> i64 {
    fx(fl(smoothing_base(fx(smoothing))).powf(dt * 60.0))
}

#[test]
fn test_lerp_smooth_instant() {
    // With smoothing = 0, should approach target quickly
    let result = fl(lerp_smooth(fx(0.0), fx(1.0), retention(0.0, 0.016)));
    assert!((result - 1.0).abs() < 0.01, "Expected near 1.0, got {}", result);
}

#[test]
fn test_lerp_smooth_gradual() {
    // With smoothing = 0.5, should move partway toward target
    let result = fl(lerp_smooth(fx(0.0), fx(1.0), retention(0.5, 0.016)));
    assert!(result > 0.0 && result < 1.0, "Expected between 0 and 1, got {}", result);
}

#[test]
fn test_lerp_smooth_no_change_when_equal() {
    let result = fl(lerp_smooth(fx(0.5), fx(0.5), retention(0.5, 0.016)));
    assert!((result - 0.5).abs() < EPSILON, "Expected 0.5, got {}", result);
}

#[test]
fn test_map_range_basic() {
    // Map 0.5 from [0, 1] to [0, 100]
    let result = fl(map_range(fx(0.5), fx(0.0), fx(1.0), fx(0.0), fx(100.0)));
    assert!((result - 50.0).abs() < EPSILON, "Expected 50.0, got {}", result);
}

#[test]
fn test_map_range_clamping() {
    // Values outside input range should be clamped
    let result_low = fl(map_range(fx(-1.0), fx(0.0), fx(1.0), fx(0.0), fx(100.0)));
    let result_high = fl(map_range(fx(2.0), fx(0.0), fx(1.0), fx(0.0), fx(100.0)));

    assert!((result_low - 0.0).abs() < EPSILON, "Expected 0.0, got {}", result_low);
    assert!((result_high - 100.0).abs() < EPSILON, "Expected 100.0, got {}", result_high);
}

#[test]
fn test_map_range_inverted() {
    // Inverted output range should work
    let result = fl(map_range(fx(0.5), fx(0.0), fx(1.0), fx(100.0), fx(0.0)));
    assert!((result - 50.0).abs() < EPSILON, "Expected 50.0, got {}", result);
}

#[test]
fn test_map_range_zero_input_range() {
    // Zero-width input range should return out_min
    let result = fl(map_range(fx(5.0), fx(5.0), fx(5.0), fx(0.0), fx(100.0)));
    assert!((result - 0.0).abs() < EPSILON, "Expected 0.0, got {}", result);
}

#[test]
fn test_classify_beat_strength_silence() {
    assert_eq!(classify_beat_strength(fx(0.0)), BeatStrength::Silence);
    assert_eq!(classify_beat_strength(fx(0.05)), BeatStrength::Silence);
    assert_eq!(classify_beat_strength(fx(0.099)), BeatStrength::Silence);
}

#[test]
fn test_classify_beat_strength_soft() {
    assert_eq!(classify_beat_strength(fx(0.1)), BeatStrength::Soft);
    assert_eq!(classify_beat_strength(fx(0.2)), BeatStrength::Soft);
    assert_eq!(classify_beat_strength(fx(0.299)), BeatStrength::Soft);
}

#[test]
fn test_classify_beat_strength_medium() {
    assert_eq!(classify_beat_strength(fx(0.3)), BeatStrength::Medium);
    assert_eq!(classify_beat_strength(fx(0.45)), BeatStrength::Medium);
    assert_eq!(classify_beat_strength(fx(0.599)), BeatStrength::Medium);
}

#[test]
fn test_classify_beat_strength_strong() {
    assert_eq!(classify_beat_strength(fx(0.6)), BeatStrength::Strong);
    assert_eq!(classify_beat_strength(fx(0.8)), BeatStrength::Strong);
    assert_eq!(classify_beat_strength(fx(1.0)), BeatStrength::Strong);
}

#[test]
fn test_get_act_intensity_factor() {
    assert_eq!(get_act_intensity_factor(Act::Emergence), fx(0.3));
    assert_eq!(get_act_intensity_factor(Act::Accumulation), fx(0.6));
    assert_eq!(get_act_intensity_factor(Act::Crescendo), fx(1.0));
    assert_eq!(get_act_intensity_factor(Act::Release), fx(0.7));
    assert_eq!(get_act_intensity_factor(Act::Transcendence), fx(0.4));
}

#[test]
fn test_get_amplitude_for_band() {
    let analysis = AudioAnalysis {
        amplitude_low: fx(0.1),
        amplitude_mid: fx(0.5),
        amplitude_high: fx(0.7),
        frequency_shimmer: fx(0.3),
        ..Default::default()
    };

    assert_eq!(get_amplitude_for_band(analysis, FrequencyBand::Bass), fx(0.1));
    assert_eq!(get_amplitude_for_band(analysis, FrequencyBand::Mid), fx(0.5));
    assert_eq!(get_amplitude_for_band(analysis, FrequencyBand::High), fx(0.7));
    assert_eq!(get_amplitude_for_band(analysis, FrequencyBand::Shimmer), fx(0.3));
}

#[test]
fn lerp_smooth_exact_values() {
    assert_eq!(lerp_smooth(fx(2.0), fx(4.0), fx(0.0)), fx(4.0));
    assert_eq!(lerp_smooth(fx(2.0), fx(4.0), fx(1.0)), fx(2.0));
    assert_eq!(lerp_smooth(fx(2.0), fx(4.0), fx(0.25)), fx(3.5));
    assert_eq!(lerp_smooth(fx(4.0), fx(2.0), fx(0.25)), fx(2.5));
    assert_eq!(smoothing_base(fx(-0.2)), 0);
    assert_eq!(smoothing_base(fx(0.3)), fx(0.3));
    assert_eq!(smoothing_base(fx(1.0)), fx(0.99));
}

#[test]
fn map_range_exact_values() {
    assert_eq!(map_range(fx(0.25), 0, fx(1.0), fx(4.0), fx(40.0)), fx(13.0));
    assert_eq!(map_range(fx(3.0), fx(2.0), fx(4.0), fx(-1.0), fx(1.0)), 0);
    assert_eq!(map_range(fx(7.0), fx(5.0), fx(5.0), fx(2.0), fx(9.0)), fx(2.0));
}

fn waves(bass: f64, mid: f64, high: f64, shimmer: f64, slow: f64, fast: f64) -> AudioWaves {
    AudioWaves {
        bass: fx(bass),
        mid: fx(mid),
        high: fx(high),
        shimmer: fx(shimmer),
        noise_slow: fx(slow),
        noise_fast: fx(fast),
    }
}

#[test]
fn audio_signal_arguments_and_levels() {
    let arguments = audio_wave_arguments(fx(2.0));
    assert_eq!(arguments.bass, fx(6.283185));
    assert_eq!(arguments.noise_slow, fx(7.4));
    assert_eq!(arguments.noise_fast, fx(14.6));
    assert_eq!(beat_period_argument(fx(2.0)), fx(0.2));

    let mut analysis = AudioAnalysis::default();
    analysis.beat_detected = true;
    process_audio_input(Act::Crescendo, &mut analysis, waves(1.0, 0.0, -1.0, 1.0, 1.0, -1.0));
    assert_eq!(analysis.amplitude_low, fx(0.8));
    assert_eq!(analysis.amplitude_mid, fx(0.45));
    assert_eq!(analysis.amplitude_high, 0);
    assert_eq!(analysis.amplitude_peak, fx(0.8));
    assert_eq!(analysis.frequency_bass, fx(0.85));
    assert_eq!(analysis.frequency_mid, fx(0.4));
    assert_eq!(analysis.frequency_high, 0);
    assert_eq!(analysis.frequency_shimmer, fx(0.5));
    assert!(analysis.beat_detected);

    process_audio_input(Act::Emergence, &mut analysis, waves(1.0, 1.0, 1.0, 1.0, 0.0, 0.0));
    assert_eq!(analysis.amplitude_low, fx(0.21));
    assert_eq!(analysis.amplitude_mid, fx(0.3));
    assert_eq!(analysis.amplitude_high, fx(0.24));
    assert_eq!(analysis.amplitude_peak, fx(0.3));
}

#[test]
fn beats_fall_on_the_attack_of_the_period() {
    let mut analysis = AudioAnalysis::default();
    analysis.amplitude_peak = fx(0.45);
    // Period 0.9: the time 1.85 is 0.05 into the third period.
    let beat = detect_beats(fx(1.85), &mut analysis, 0);
    assert_eq!(beat, Some(BeatDetected { strength: BeatStrength::Medium }));
    assert!(analysis.beat_detected);
    assert_eq!(analysis.beat_strength, BeatStrength::Medium);

    // 0.2 into the period is past the attack.
    let beat = detect_beats(fx(2.0), &mut analysis, 0);
    assert_eq!(beat, None);
    assert!(!analysis.beat_detected);
    assert_eq!(analysis.beat_strength, BeatStrength::Medium);

    // Silence never beats.
    analysis.amplitude_peak = fx(0.05);
    let beat = detect_beats(fx(1.85), &mut analysis, 0);
    assert_eq!(beat, None);
    assert_eq!(analysis.beat_strength, BeatStrength::Silence);

    // The period sways with the sine: at +1 it is 1.05 seconds.
    analysis.amplitude_peak = fx(0.9);
    let beat = detect_beats(fx(1.1), &mut analysis, fx(1.0));
    assert_eq!(beat, Some(BeatDetected { strength: BeatStrength::Strong }));
    let beat = detect_beats(fx(1.0), &mut analysis, fx(1.0));
    assert_eq!(beat, None);
}

#[test]
fn spawn_rate_follows_mid_energy() {
    let mapping = AudioVisualMapping::default();
    let mut queue = ParticleSpawnQueue::default();
    let mut analysis = AudioAnalysis::default();
    analysis.frequency_mid = fx(0.5);
    apply_audio_to_spawn_rate(&analysis, &mapping, &mut queue);
    // Target 22, retention 0.2: 10 + 12 * 0.8.
    assert_eq!(queue.spawn_rate_per_second, fx(19.6));
    assert!(queue.pending_spawns.is_empty());
    assert_eq!(queue.spawn_accumulator, 0);
}

fn arena_with_one_active(lifetime: f64) -> ParticleArena {
    let mut arena = ParticleArena::new(3, 3);
    let mut queue = ParticleSpawnQueue::default();
    let mut request = ParticleSpawnRequest::default();
    request.lifetime_ms = fx(lifetime);
    queue.pending_spawns.push(request);
    spawn_particles_from_queue(&mut arena, &mut queue, &InterpolatedActValues::default());
    arena
}

#[test]
fn audio_moves_visuals_of_every_particle() {
    let mut arena = arena_with_one_active(5000.0);
    let mapping = AudioVisualMapping::default();
    let mut analysis = AudioAnalysis::default();
    analysis.amplitude_mid = fx(1.0);
    // Slots 0 and 2 jump to their targets, slot 1 has no retention sample
    // beyond the vector's end and stays.
    arena.particles[1].visual.opacity = fx(0.9);
    let retentions = vec![0];
    apply_audio_to_visuals(&mut arena, &analysis, &mapping, &retentions);
    // Level 1.0 * 0.5 sensitivity = 0.5.
    assert_eq!(arena.particles[0].visual.opacity, fx(0.45));
    assert_eq!(arena.particles[0].visual.scale, fx(1.75));
    assert_eq!(arena.particles[0].visual.bloom_contribution, fx(0.4));
    assert_eq!(arena.particles[1].visual.opacity, fx(0.9));
    assert_eq!(arena.particles[2].visual.opacity, fx(1.0));

    assert_eq!(audio_saturation(fx(0.2), fx(0.8), fx(0.5), mapping, fx(0.5)), fx(0.38));
}

#[test]
fn pulse_breathes_with_age() {
    let mut arena = arena_with_one_active(4000.0);
    let id = 2;
    assert!(arena.particles[id].state.active);
    arena.particles[id].state.lifetime_remaining_ms = fx(3000.0);
    arena.particles[0].pulse_responder.current_scale_modifier = fx(1.1);

    // Age one second: 1.5 turns.
    assert_eq!(pulse_argument(arena.particles[id]), 9_424_777);
    let arguments = pulse_arguments_of(&arena);
    assert_eq!(arguments.len(), 3);
    assert_eq!(arguments[id], 9_424_777);

    let mut sines = vec![0; 3];
    sines[id] = fx(1.0);
    apply_pulse_effect(&mut arena, &sines);
    // Intensity 1 - 0.25 * 0.7 = 0.825; pulse 0.825; modifier 1 + 0.12375.
    assert_eq!(arena.particles[id].pulse_responder.current_scale_modifier, fx(1.12375));
    assert_eq!(arena.particles[id].visual.bloom_contribution, fx(0.0825));
    // Inactive particles are reset to no pulse.
    assert_eq!(arena.particles[0].pulse_responder.current_scale_modifier, fx(1.0));

    // A weak pulse does not add bloom.
    sines[id] = fx(-0.5);
    apply_pulse_effect(&mut arena, &sines);
    assert_eq!(arena.particles[id].pulse_responder.current_scale_modifier, 1_030_937);
    assert_eq!(arena.particles[id].visual.bloom_contribution, fx(0.0825));
}

#[test]
fn background_pulse_follows_bass() {
    let mut background = CurrentBackground::default();
    let before = background;
    let mut analysis = AudioAnalysis::default();
    analysis.frequency_bass = fx(1.0);
    apply_background_pulse(&analysis, &mut background, fx(0.5));
    assert_eq!(background.pulse_intensity, fx(0.075));
    assert_eq!(background.gradient_start, before.gradient_start);
    assert_eq!(background.gradient_end, before.gradient_end);
}

#[test]
fn ambient_volume_and_playback() {
    let state = AmbientAudioState::default();
    assert_eq!(ambient_target_volume(0, state), 0);
    assert_eq!(ambient_target_volume(4, state), 0);
    assert_eq!(ambient_target_volume(5, state), 0);
    assert_eq!(ambient_target_volume(14, state), fx(0.14));
    assert_eq!(ambient_target_volume(50, state), fx(0.7));
    assert_eq!(ambient_target_volume(9000, state), fx(0.7));

    let degenerate = AmbientAudioState { particle_full_volume: 5, ..state };
    assert_eq!(ambient_target_volume(4, degenerate), 0);
    assert_eq!(ambient_target_volume(5, degenerate), fx(0.7));

    let mut state = AmbientAudioState::default();
    // Below the threshold nothing starts.
    assert_eq!(update_ambient_audio(3, &mut state, true, fx(0.5), fx(0.25)), AmbientAction::Keep);
    assert!(!state.is_playing);
    // Above it the loop starts once the clip is there, and fades in.
    assert_eq!(update_ambient_audio(50, &mut state, false, fx(0.5), fx(0.25)), AmbientAction::Keep);
    assert!(!state.is_playing);
    assert_eq!(state.target_volume, fx(0.7));
    assert_eq!(state.current_volume, fx(0.35));
    assert_eq!(update_ambient_audio(50, &mut state, true, fx(0.5), fx(0.25)), AmbientAction::Start);
    assert!(state.is_playing);
    assert_eq!(state.current_volume, fx(0.525));
    assert_eq!(update_ambient_audio(50, &mut state, true, fx(0.5), fx(0.25)), AmbientAction::Keep);
    // Without particles it fades out faster and stops only when silent.
    assert_eq!(update_ambient_audio(0, &mut state, true, fx(0.5), fx(0.25)), AmbientAction::Keep);
    assert!(state.is_playing);
    assert_eq!(state.target_volume, 0);
    assert_eq!(state.current_volume, fx(0.6125 * 0.25));
    state.current_volume = fx(0.0005);
    assert_eq!(update_ambient_audio(0, &mut state, true, fx(0.5), fx(0.25)), AmbientAction::Stop);
    assert!(!state.is_playing);
}
