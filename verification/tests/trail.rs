use whirled_peas::components::{Trail, TrailSegment};
use whirled_peas::particle::{spawn_particles_from_queue, ParticleArena};
use whirled_peas::resources::{
    InterpolatedActValues, MotionTiming, ParticleSpawnQueue, ParticleSpawnRequest,
};
use whirled_peas::trail::{
    calculate_decay_rate, calculate_trail_width, decay_trail_opacity, fade_trail, faded,
    get_oldest_segment_age, get_trail_length, head_segment, reset_trail, trail_decay_exponent,
    update_trails, TRAIL_BASE_WIDTH, TRAIL_FADE_DURATION_MS, TRAIL_SEGMENTS, TRAIL_TAPER_FACTOR,
};
use whirled_peas::vector::Vec2;

fn fx(v: f64) -> i64 {
    (v * 1_000_000.0).round() as i64
}

fn fl(v: i64) -> f64 {
    v as f64 / 1_000_000.0
}

fn v2(x: f64, y: f64) -> Vec2 {
    Vec2::new(fx(x), fx(y))
}

fn seg(x: f64, y: f64, opacity: f64, width: f64, timestamp_ms: f64) -> TrailSegment {
    TrailSegment {
        position: v2(x, y),
        opacity: fx(opacity),
        width: fx(width),
        timestamp_ms: fx(timestamp_ms),
    }
}

#[test]
fn test_trail_constants() {
    assert_eq!(TRAIL_SEGMENTS, 12);
    assert_eq!(TRAIL_FADE_DURATION_MS, fx(1500.0));
    assert_eq!(TRAIL_BASE_WIDTH, fx(4.0));
    assert_eq!(TRAIL_TAPER_FACTOR, fx(0.7));
}

#[test]
fn test_calculate_trail_width() {
    // Head segment (index 0) should have full width
    let width_0 = calculate_trail_width(0, TRAIL_BASE_WIDTH, TRAIL_TAPER_FACTOR);
    assert_eq!(width_0, TRAIL_BASE_WIDTH);

    // Second segment should be width * taper
    let width_1 = calculate_trail_width(1, TRAIL_BASE_WIDTH, TRAIL_TAPER_FACTOR);
    assert!((fl(width_1) - fl(TRAIL_BASE_WIDTH) * fl(TRAIL_TAPER_FACTOR)).abs() < 0.001);

    // Third segment should be width * taper^2
    let width_2 = calculate_trail_width(2, TRAIL_BASE_WIDTH, TRAIL_TAPER_FACTOR);
    assert!((fl(width_2) - fl(TRAIL_BASE_WIDTH) * fl(TRAIL_TAPER_FACTOR).powi(2)).abs() < 0.001);

    // Last segment should be much smaller
    let width_11 = calculate_trail_width(11, TRAIL_BASE_WIDTH, TRAIL_TAPER_FACTOR);
    assert!(width_11 < width_0);
    assert!(width_11 > fx(0.0));
}

#[test]
fn test_calculate_trail_width_with_zero_taper() {
    // With taper factor 0, only head has width
    let width_0 = calculate_trail_width(0, fx(4.0), fx(0.0));
    assert_eq!(width_0, fx(4.0));

    let width_1 = calculate_trail_width(1, fx(4.0), fx(0.0));
    assert_eq!(width_1, fx(0.0));
}

#[test]
fn test_calculate_trail_width_with_full_taper() {
    // With taper factor 1, all segments have same width
    let width_0 = calculate_trail_width(0, fx(4.0), fx(1.0));
    let width_5 = calculate_trail_width(5, fx(4.0), fx(1.0));
    let width_11 = calculate_trail_width(11, fx(4.0), fx(1.0));

    assert_eq!(width_0, fx(4.0));
    assert_eq!(width_5, fx(4.0));
    assert_eq!(width_11, fx(4.0));
}

#[test]
fn test_decay_rate_calculation() {
    // Verify decay rate gives expected fade behavior
    let decay_rate = fl(calculate_decay_rate(TRAIL_FADE_DURATION_MS));

    // After TRAIL_FADE_DURATION_MS, opacity should be ~1%
    let initial_opacity = 1.0;
    let final_opacity = initial_opacity * (-decay_rate * fl(TRAIL_FADE_DURATION_MS)).exp();

    assert!(final_opacity < 0.02, "Should be near 1%: {}", final_opacity);
    assert!(final_opacity > 0.005, "Should not be too small: {}", final_opacity);
}

#[test]
fn test_decay_rate_zero_duration() {
    // Zero duration should give rate of 1.0 (instant decay)
    let decay_rate = calculate_decay_rate(fx(0.0));
    assert_eq!(decay_rate, fx(1.0));
}

#[test]
fn test_decay_rate_different_durations() {
    // Shorter duration should have higher decay rate
    let rate_short = calculate_decay_rate(fx(500.0));
    let rate_long = calculate_decay_rate(fx(2000.0));

    assert!(rate_short > rate_long);
}

#[test]
fn test_reset_trail() {
    let mut trail = Trail::default();

    // Add some segments
    trail.push_segment(seg(10.0, 20.0, 0.8, 4.0, 100.0));
    trail.push_segment(seg(30.0, 40.0, 0.6, 3.0, 200.0));

    // Reset the trail
    reset_trail(&mut trail);

    // Verify all segments are cleared
    assert_eq!(trail.head_index, 0);
    for segment in trail.segments.iter() {
        assert_eq!(segment.position, Vec2::zero());
        assert_eq!(segment.opacity, fx(0.0));
        assert_eq!(segment.width, fx(0.0));
        assert_eq!(segment.timestamp_ms, fx(0.0));
    }
}

#[test]
fn test_get_trail_length() {
    let mut trail = Trail::default();

    // Empty trail should have zero length
    assert_eq!(get_trail_length(&trail), fx(0.0));

    // Add visible segments in a line
    trail.push_segment(seg(0.0, 0.0, 1.0, 4.0, 100.0));
    trail.push_segment(seg(3.0, 4.0, 1.0, 3.0, 200.0)); // Distance 5 from origin

    let length = fl(get_trail_length(&trail));
    assert!((length - 5.0).abs() < 0.001);
}

#[test]
fn test_get_trail_length_ignores_invisible() {
    let mut trail = Trail::default();

    // Add a visible segment
    trail.push_segment(seg(0.0, 0.0, 1.0, 4.0, 100.0));

    // Add an invisible segment (should be ignored)
    trail.push_segment(seg(100.0, 0.0, 0.001, 3.0, 200.0)); // Below visibility threshold

    // Only one visible segment, so length should be 0
    let length = get_trail_length(&trail);
    assert_eq!(length, fx(0.0));
}

#[test]
fn test_get_oldest_segment_age() {
    let mut trail = Trail::default();

    // Empty trail should have zero age
    assert_eq!(get_oldest_segment_age(&trail, fx(1000.0)), fx(0.0));

    // Add segments at different times
    trail.push_segment(seg(0.0, 0.0, 1.0, 4.0, 100.0));
    trail.push_segment(seg(0.0, 0.0, 1.0, 3.0, 200.0));

    // At time 1000ms, oldest segment (100ms) should be 900ms old
    let age = fl(get_oldest_segment_age(&trail, fx(1000.0)));
    assert!((age - 900.0).abs() < 0.001);
}

#[test]
fn test_exponential_decay_behavior() {
    // Simulate decay over multiple frames
    let decay_rate = fl(calculate_decay_rate(TRAIL_FADE_DURATION_MS));
    let mut opacity = 1.0;

    // Simulate 60 FPS for 1.5 seconds
    let dt_ms = 1000.0 / 60.0;
    let frames = (fl(TRAIL_FADE_DURATION_MS) / dt_ms) as u32;

    for _ in 0..frames {
        opacity *= (-decay_rate * dt_ms).exp();
    }

    // After fade duration, should be near 1%
    assert!(opacity < 0.02);
    assert!(opacity > 0.005);
}

#[test]
fn test_trail_width_sequence() {
    // Verify width sequence is monotonically decreasing
    let mut prev_width = i64::MAX;

    for i in 0..TRAIL_SEGMENTS {
        let width = calculate_trail_width(i, TRAIL_BASE_WIDTH, TRAIL_TAPER_FACTOR);
        assert!(width <= prev_width, "Width should decrease: {} vs {}", width, prev_width);
        assert!(width > fx(0.0), "Width should be positive at index {}", i);
        prev_width = width;
    }
}

#[test]
fn trail_width_exact_values() {
    assert_eq!(calculate_trail_width(1, fx(4.0), fx(0.7)), fx(2.8));
    assert_eq!(calculate_trail_width(2, fx(4.0), fx(0.7)), fx(1.96));
    assert_eq!(calculate_trail_width(3, fx(2.0), fx(0.5)), fx(0.25));
    assert_eq!(calculate_decay_rate(fx(1500.0)), fx(0.00307));
    assert_eq!(calculate_decay_rate(fx(-3.0)), fx(1.0));
}

#[test]
fn decay_exponent_follows_the_fade_duration() {
    // Rate 0.00307 per millisecond over 10 milliseconds.
    assert_eq!(trail_decay_exponent(fx(0.01), None), fx(-0.0307));
    let timing = MotionTiming::default();
    // The slow transition of 2000 ms is capped at 1500 ms.
    assert_eq!(trail_decay_exponent(fx(0.01), Some(timing)), fx(-0.0307));
    let quick = MotionTiming { slow_transition_duration_ms: fx(500.0), ..timing };
    assert_eq!(trail_decay_exponent(fx(0.01), Some(quick)), fx(-0.0921));
}

#[test]
fn fading_multiplies_and_snaps() {
    let s = seg(1.0, 2.0, 0.5, 3.0, 40.0);
    let f = faded(s, fx(0.5));
    assert_eq!(f, seg(1.0, 2.0, 0.25, 3.0, 40.0));
    assert_eq!(faded(seg(0.0, 0.0, 0.0019, 1.0, 0.0), fx(0.5)).opacity, 0);
    assert_eq!(faded(seg(0.0, 0.0, 0.002, 1.0, 0.0), fx(0.5)).opacity, fx(0.001));

    let mut trail = Trail::default();
    trail.push_segment(seg(0.0, 0.0, 1.0, 4.0, 1.0));
    trail.push_segment(seg(1.0, 0.0, 0.4, 4.0, 2.0));
    fade_trail(&mut trail, fx(0.9));
    assert_eq!(trail.head_index, 2);
    let segments = trail.iter_segments();
    assert_eq!(segments[0].opacity, fx(0.36));
    assert_eq!(segments[1].opacity, fx(0.9));
    assert_eq!(segments[2].opacity, 0);
    assert_eq!(segments[0].position, v2(1.0, 0.0));
}

fn arena_with_two_active() -> ParticleArena {
    let mut arena = ParticleArena::new(3, 3);
    let mut queue = ParticleSpawnQueue::default();
    for x in [5.0, 6.0] {
        let mut r = ParticleSpawnRequest::default();
        r.position = v2(x, -x);
        queue.pending_spawns.push(r);
    }
    spawn_particles_from_queue(&mut arena, &mut queue, &InterpolatedActValues::default());
    arena
}

#[test]
fn trails_record_active_enabled_particles() {
    let mut arena = arena_with_two_active();
    // Slot 2 is at (5, -5), slot 1 at (6, -6), slot 0 is free.
    arena.particles[1].trail_renderer.enabled = false;
    arena.particles[2].trail_renderer.base_width = fx(4.0);
    let before = arena.clone();
    update_trails(&mut arena, fx(250.0));

    assert_eq!(arena.particles[0], before.particles[0]);
    assert_eq!(arena.particles[1], before.particles[1]);
    let p = arena.particles[2];
    assert_eq!(p.trail.head_index, 1);
    assert_eq!(p.trail.segments[1], seg(5.0, -5.0, 1.0, 4.0, 250.0));
    assert_eq!(head_segment(before.particles[2], fx(250.0)), seg(5.0, -5.0, 1.0, 4.0, 250.0));
    let mut expected = before.particles[2];
    expected.trail = p.trail;
    assert_eq!(p, expected);
    assert_eq!(arena.pool, before.pool);

    for n in 0..30 {
        update_trails(&mut arena, fx(300.0 + n as f64));
    }
    let segments = arena.particles[2].trail.iter_segments();
    assert_eq!(segments.len(), 12);
    for (age, segment) in segments.iter().enumerate() {
        assert_eq!(segment.timestamp_ms, fx(329.0 - age as f64));
    }
}

#[test]
fn decay_runs_on_every_particle() {
    let mut arena = arena_with_two_active();
    arena.particles[1].trail_renderer.enabled = false;
    for id in 0..3 {
        arena.particles[id].trail.push_segment(seg(0.0, 0.0, 0.8, 1.0, 5.0));
    }
    let before = arena.clone();
    decay_trail_opacity(&mut arena, fx(0.5));
    for id in 0..3 {
        let p = arena.particles[id];
        assert_eq!(p.trail.iter_segments()[0].opacity, fx(0.4));
        assert_eq!(p.trail.iter_segments()[1].opacity, 0);
        assert_eq!(p.trail.head_index, before.particles[id].trail.head_index);
        let mut expected = before.particles[id];
        expected.trail = p.trail;
        assert_eq!(p, expected);
    }
    assert_eq!(arena.pool, before.pool);
}

#[test]
fn trail_length_and_age_skip_what_is_invisible_or_undated() {
    let mut trail = Trail::default();
    trail.push_segment(seg(0.0, 0.0, 1.0, 1.0, 100.0));
    trail.push_segment(seg(50.0, 50.0, 0.01, 1.0, 150.0));
    trail.push_segment(seg(3.0, 4.0, 0.5, 1.0, 0.0));
    trail.push_segment(seg(3.0, 10.0, 0.011, 1.0, 300.0));
    // Visible: (3, 10), (3, 4), (0, 0): 6 + 5.
    assert_eq!(get_trail_length(&trail), fx(11.0));
    // Dated and visible: 300 and 100.
    assert_eq!(get_oldest_segment_age(&trail, fx(1000.0)), fx(900.0));
    // Ages in the future do not count below zero.
    assert_eq!(get_oldest_segment_age(&trail, fx(50.0)), 0);
}
