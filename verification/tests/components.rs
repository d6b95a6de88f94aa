use whirled_peas::color::Srgba;
use whirled_peas::components::{
    AudioReactive, MouseInfluence, ParticleBehavior, ParticleBundle, ParticleMotion,
    ParticleState, ParticleVisual, PulseResponder, Trail, TrailRenderer, TrailSegment, Visibility,
};
use whirled_peas::types::{FrequencyBand, ParticleBehaviorType, SpawnSource};
use whirled_peas::vector::Vec2;

fn fx(v: f64) -> i64 {
    (v * 1_000_000.0).round() as i64
}

fn fl(v: i64) -> f64 {
    v as f64 / 1_000_000.0
}

#[test]
fn test_particle_state_default() {
    let state = ParticleState::default();
    assert!(!state.active);
    assert_eq!(state.lifetime_remaining_ms, fx(0.0));
    assert_eq!(state.lifetime_total_ms, fx(0.0));
}

#[test]
fn test_trail_circular_buffer() {
    let mut trail = Trail::new();

    // Push 15 segments (more than capacity of 12)
    for i in 0..15 {
        trail.push_segment(TrailSegment {
            position: Vec2::new(fx(i as f64), fx(0.0)),
            opacity: fx(1.0),
            width: fx(1.0),
            timestamp_ms: fx(i as f64 * 100.0),
        });
    }

    // Head index should wrap around
    assert!(trail.head_index < 12);

    // Most recent segment should have position (14, 0)
    let segments: Vec<_> = trail.iter_segments();
    assert_eq!(segments[0].position.x, fx(14.0));
}

#[test]
fn test_pulse_responder_trigger() {
    let mut responder = PulseResponder::default();
    responder.trigger(fx(1.0));

    assert_eq!(responder.pulse_phase, fx(0.0));
    assert_eq!(responder.pulse_amplitude, fx(1.0));
}

#[test]
fn test_pulse_responder_decay() {
    let mut responder = PulseResponder::default();
    responder.trigger(fx(1.0));

    // Update for one second
    let decay = fx(fl(responder.decay_exponent(fx(1.0))).exp());
    let sine = fx(fl(responder.next_phase(fx(1.0))).sin());
    let _ = responder.update(fx(1.0), decay, sine);

    // Amplitude should have decayed
    assert!(responder.pulse_amplitude < fx(1.0));
}

#[test]
fn test_particle_bundle_creation() {
    let bundle = ParticleBundle::new(42);
    assert_eq!(bundle.particle.id, 42);
    assert!(!bundle.state.active);
    assert_eq!(bundle.visibility, Visibility::Hidden);
}

fn segment(n: i64) -> TrailSegment {
    TrailSegment { position: Vec2::new(n, -n), opacity: fx(1.0), width: fx(2.0), timestamp_ms: n }
}

#[test]
fn trail_keeps_the_latest_twelve_newest_first() {
    for pushes in [12usize, 13, 24, 30, 100] {
        let mut trail = Trail::new();
        for n in 0..pushes {
            trail.push_segment(segment(n as i64));
        }
        let segments = trail.iter_segments();
        assert_eq!(segments.len(), 12);
        assert_eq!(trail.segments.len(), 12);
        for age in 0..12 {
            assert_eq!(segments[age], segment((pushes - 1 - age) as i64));
        }
    }
}

#[test]
fn trail_with_few_pushes_still_shows_twelve_slots() {
    let mut trail = Trail::new();
    assert_eq!(trail.head_index, 0);
    trail.push_segment(segment(7));
    trail.push_segment(segment(8));
    // The first push goes to the slot after the head.
    assert_eq!(trail.head_index, 2);
    assert_eq!(trail.segments[1], segment(7));
    assert_eq!(trail.segments[2], segment(8));
    let segments = trail.iter_segments();
    assert_eq!(segments.len(), 12);
    assert_eq!(segments[0], segment(8));
    assert_eq!(segments[1], segment(7));
    for age in 2..12 {
        assert_eq!(segments[age], TrailSegment::default());
    }
}

#[test]
fn trail_push_tolerates_a_head_out_of_range() {
    let mut trail = Trail::new();
    trail.head_index = usize::MAX;
    trail.push_segment(segment(1));
    assert_eq!(trail.head_index, (usize::MAX % 12 + 1) % 12);
    assert_eq!(trail.iter_segments()[0], segment(1));
}

#[test]
fn pulse_responder_exact_values() {
    let mut responder = PulseResponder::default();
    assert_eq!(responder.decay_rate, fx(3.0));
    assert_eq!(responder.current_scale_modifier, fx(1.0));
    responder.trigger(fx(0.8));
    assert_eq!(responder.decay_exponent(fx(0.5)), fx(-1.5));
    assert_eq!(responder.next_phase(fx(0.25)), fx(6.283185 * 0.25));
    let value = responder.update(fx(0.25), fx(0.5), fx(-0.5));
    assert_eq!(responder.pulse_amplitude, fx(0.4));
    assert_eq!(responder.pulse_phase, fx(6.283185 * 0.25));
    assert_eq!(value, fx(0.2));

    // At or below one thousandth the pulse is over.
    responder.pulse_amplitude = fx(0.001);
    let value = responder.update(fx(0.25), fx(0.5), fx(1.0));
    assert_eq!(value, 0);
    assert_eq!(responder.pulse_amplitude, 0);
    assert_eq!(responder.pulse_phase, fx(6.283185 * 0.25));
}

#[test]
fn component_defaults() {
    assert_eq!(
        ParticleVisual::default(),
        ParticleVisual {
            base_color: Srgba::white(),
            current_color: Srgba::white(),
            opacity: fx(1.0),
            scale: fx(1.0),
            bloom_contribution: 0,
        }
    );
    assert_eq!(
        ParticleMotion::default(),
        ParticleMotion {
            velocity: Vec2::zero(),
            acceleration: Vec2::zero(),
            drag: fx(0.98),
            turbulence_seed: 0,
        }
    );
    assert_eq!(
        ParticleBehavior::default(),
        ParticleBehavior {
            behavior_type: ParticleBehaviorType::Drift,
            behavior_strength: fx(1.0),
            target_position: None,
        }
    );
    assert_eq!(
        TrailRenderer::default(),
        TrailRenderer { enabled: true, base_width: fx(2.0), taper_factor: fx(0.8) }
    );
    assert_eq!(
        MouseInfluence::default(),
        MouseInfluence { affected: false, distance_to_cursor: i64::MAX, influence_strength: 0 }
    );
    assert_eq!(
        AudioReactive::default(),
        AudioReactive {
            amplitude_sensitivity: fx(0.5),
            frequency_band: FrequencyBand::Mid,
            response_smoothing: fx(0.1),
        }
    );
    let bundle = ParticleBundle::new(7);
    assert_eq!(bundle.spawnable.spawn_source, SpawnSource::Automatic);
    assert_eq!(bundle.attractable.attraction_weight, fx(1.0));
    assert_eq!(bundle.trail, Trail::default());
    assert_eq!(bundle.transform.translation, Vec2::zero());
    assert_eq!(bundle.sprite.custom_size, None);
}
