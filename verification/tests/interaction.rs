use whirled_peas::color::Srgba;
use whirled_peas::interaction::{
    apply_explosion, apply_hyperspace, apply_mouse_influence, calculate_interaction_radius,
    explosion_impulse, explosion_magnitude, handle_keyboard_input, handle_mouse_clicks,
    handle_touch_gestures, hyperspace_after_wrap, quadratic_falloff, ripple_argument, ripple_arguments_of,
    update_gentle_fade, update_mouse_state, update_touch_state, velocity_to_strength, BreathPulse,
    BreathPulseCooldown, ExplosionEvent, GentleFade, GentleFadeState, HyperspaceJumpEvent,
    HyperspaceState, PointerSample, TouchFrame, TouchPoint, TouchState,
    GENTLE_FADE_DURATION_SECONDS,
};
use whirled_peas::particle::{spawn_particles_from_queue, ParticleArena};
use whirled_peas::resources::{
    InteractionConfig, InterpolatedActValues, MouseState, ParticleSpawnQueue,
    ParticleSpawnRequest,
};
use whirled_peas::types::InteractionMode;
use whirled_peas::vector::Vec2;

fn fx(v: f64) -> i64 {
    (v * 1_000_000.0).round() as i64
}

fn fl(v: i64) -> f64 {
    v as f64 / 1_000_000.0
}

fn v2(x: f64, y: f64) -> Vec2 {
    Vec2::new(fx(x), fx(y))
}

#[test]
fn test_quadratic_falloff() {
    // At distance 0, falloff should be 1.0
    assert!((fl(quadratic_falloff(fx(0.0), fx(100.0))) - 1.0).abs() < 0.001);

    // At half distance, falloff should be 0.75 (1 - 0.25)
    assert!((fl(quadratic_falloff(fx(50.0), fx(100.0))) - 0.75).abs() < 0.001);

    // At max distance, falloff should be 0.0
    assert!((fl(quadratic_falloff(fx(100.0), fx(100.0))) - 0.0).abs() < 0.001);

    // Beyond max distance, falloff should be 0.0
    assert!((fl(quadratic_falloff(fx(150.0), fx(100.0))) - 0.0).abs() < 0.001);

    // Edge cases
    assert_eq!(quadratic_falloff(fx(50.0), fx(0.0)), fx(0.0));
    assert_eq!(quadratic_falloff(fx(-10.0), fx(100.0)), fx(0.0)); // Negative distance treated as >= max
}

#[test]
fn test_velocity_to_strength() {
    // Below low threshold
    assert_eq!(velocity_to_strength(v2(10.0, 0.0)), fx(0.0));
    assert_eq!(velocity_to_strength(v2(50.0, 0.0)), fx(0.0));

    // Above high threshold
    assert_eq!(velocity_to_strength(v2(400.0, 0.0)), fx(1.0));
    assert_eq!(velocity_to_strength(v2(500.0, 0.0)), fx(1.0));

    // Mid-range (225 is midpoint between 50 and 400)
    let mid_strength = fl(velocity_to_strength(v2(225.0, 0.0)));
    assert!(mid_strength > 0.4 && mid_strength < 0.6);
}

#[test]
fn test_breath_pulse_event() {
    let pulse = BreathPulse { origin: v2(100.0, 200.0), strength: fx(0.8) };
    assert_eq!(pulse.origin, v2(100.0, 200.0));
    assert_eq!(pulse.strength, fx(0.8));
}

#[test]
fn test_gentle_fade_state_progress() {
    let mut state = GentleFadeState::default();
    assert_eq!(state.progress(), fx(0.0));

    state.is_active = true;
    state.remaining_seconds = fx(3.0);
    state.total_duration_seconds = fx(3.0);
    assert_eq!(state.progress(), fx(0.0));

    state.remaining_seconds = fx(1.5);
    assert!((fl(state.progress()) - 0.5).abs() < 0.001);

    state.remaining_seconds = fx(0.0);
    assert_eq!(state.progress(), fx(1.0));
}

#[test]
fn test_breath_cooldown_default() {
    let cooldown = BreathPulseCooldown::default();
    assert_eq!(cooldown.remaining_seconds, fx(0.0));
}

#[test]
fn test_gentle_fade_default() {
    let fade = GentleFade::default();
    assert_eq!(fade.duration_seconds, GENTLE_FADE_DURATION_SECONDS);
}

#[test]
fn falloff_exact_values() {
    assert_eq!(quadratic_falloff(0, fx(200.0)), fx(1.0));
    assert_eq!(quadratic_falloff(fx(200.0), fx(200.0)), 0);
    assert_eq!(quadratic_falloff(fx(201.0), fx(200.0)), 0);
    assert_eq!(quadratic_falloff(fx(100.0), fx(200.0)), fx(0.75));
    assert_eq!(quadratic_falloff(fx(20.0), fx(200.0)), fx(0.99));
    assert_eq!(quadratic_falloff(fx(1.0), fx(-5.0)), 0);
    assert_eq!(velocity_to_strength(v2(225.0, 0.0)), fx(0.5));
    assert_eq!(velocity_to_strength(v2(0.0, -400.0)), fx(1.0));
}

#[test]
fn explosion_at_half_the_radius() {
    // 800 * 1.0 * (1 - max(200 / 400, 0.1))^2 = 200, away from the origin.
    assert_eq!(explosion_magnitude(fx(200.0), fx(1.0)), fx(200.0));
    assert_eq!(explosion_impulse(v2(200.0, 0.0), fx(1.0)), v2(200.0, 0.0));
    assert_eq!(explosion_impulse(v2(0.0, -200.0), fx(1.0)), v2(0.0, -200.0));
    assert_eq!(explosion_impulse(v2(120.0, 160.0), fx(1.0)), v2(120.0, 160.0));
    assert_eq!(explosion_impulse(v2(200.0, 0.0), fx(1.5)), v2(300.0, 0.0));
    // Close to the center the nearness is capped at 0.9.
    assert_eq!(explosion_magnitude(fx(10.0), fx(1.0)), fx(648.0));
    // Outside the radius and within one unit of the center: nothing.
    assert_eq!(explosion_impulse(v2(400.0, 0.0), fx(1.0)), Vec2::zero());
    assert_eq!(explosion_impulse(v2(0.5, 0.0), fx(1.0)), Vec2::zero());
    assert_eq!(explosion_impulse(Vec2::zero(), fx(1.0)), Vec2::zero());
}

fn arena_with_particles_at(positions: &[(f64, f64)]) -> ParticleArena {
    let count = positions.len() as u32;
    let mut arena = ParticleArena::new(count + 1, count + 1);
    let mut queue = ParticleSpawnQueue::default();
    // The free stack is popped from the top, so the first request takes the
    // highest id; queue the positions so that slot i gets positions[i - 1].
    for position in positions.iter().rev() {
        let mut request = ParticleSpawnRequest::default();
        request.position = v2(position.0, position.1);
        request.color = Srgba::new(fx(0.5), fx(0.25), fx(0.125), fx(1.0));
        queue.pending_spawns.push(request);
    }
    spawn_particles_from_queue(&mut arena, &mut queue, &InterpolatedActValues::default());
    arena
}

#[test]
fn explosion_moves_and_flashes_particles_in_reach() {
    let mut arena = arena_with_particles_at(&[(200.0, 0.0), (500.0, 0.0), (0.2, 0.0)]);
    arena.particles[0].transform.translation = v2(100.0, 0.0);
    let before = arena.clone();
    apply_explosion(&mut arena, &ExplosionEvent { origin: Vec2::zero(), strength: fx(1.0) });

    // Slot 0 is inactive, slots 2 and 3 are out of reach.
    assert_eq!(arena.particles[0], before.particles[0]);
    assert_eq!(arena.particles[2], before.particles[2]);
    assert_eq!(arena.particles[3], before.particles[3]);

    let hit = arena.particles[1];
    assert_eq!(hit.motion.velocity, v2(200.0, 0.0));
    assert_eq!(hit.visual.bloom_contribution, fx(0.25));
    assert_eq!(hit.visual.current_color, Srgba::new(fx(0.65), fx(0.37), fx(0.17), fx(1.0)));
    assert_eq!(hit.visual.base_color, before.particles[1].visual.base_color);
    assert_eq!(hit.transform, before.particles[1].transform);
}

#[test]
fn hyperspace_runs_down_and_pushes_outward() {
    let mut arena = arena_with_particles_at(&[(400.0, 0.0), (0.5, 0.0)]);
    let before = arena.clone();

    let mut idle = HyperspaceState::default();
    apply_hyperspace(&mut idle, &mut arena, fx(0.1));
    assert_eq!(idle, HyperspaceState::default());
    assert_eq!(arena.particles, before.particles);

    let mut state = HyperspaceState {
        is_active: true,
        vanishing_point: Vec2::zero(),
        remaining_seconds: fx(1.5),
        total_duration: fx(1.5),
    };
    apply_hyperspace(&mut state, &mut arena, fx(0.75));
    assert!(state.is_active);
    assert_eq!(state.remaining_seconds, fx(0.75));
    assert_eq!(state.progress(), fx(0.5));
    let p = arena.particles[1];
    // 2000 * (1 + 8 * 0.25) * clamp(400 / 400) * 0.75 = 4500.
    assert_eq!(p.motion.velocity, v2(4500.0, 0.0));
    assert_eq!(p.motion.drag, fx(0.9995));
    assert_eq!(p.visual.opacity, fx(1.0));
    assert_eq!(p.visual.bloom_contribution, fx(0.8));
    assert_eq!(p.visual.scale, fx(1.15));
    assert_eq!(
        p.visual.current_color,
        Srgba::new(fx(0.5 * 0.95 + 0.12), fx(0.25 * 0.95 + 0.16), fx(0.125 + 0.2), fx(1.0))
    );
    // Within one unit of the vanishing point nothing happens.
    assert_eq!(arena.particles[2], before.particles[2]);
    assert_eq!(arena.particles[0], before.particles[0]);

    // The countdown ends the effect without touching the particles.
    let frozen = arena.clone();
    apply_hyperspace(&mut state, &mut arena, fx(0.75));
    assert!(!state.is_active);
    assert_eq!(state.remaining_seconds, 0);
    assert_eq!(arena.particles, frozen.particles);
}

fn active_mouse(x: f64, y: f64, vx: f64) -> MouseState {
    MouseState { position: v2(x, y), velocity: v2(vx, 0.0), is_active: true, accumulated_interaction: 0 }
}

#[test]
fn pointer_influence_marks_and_attracts() {
    let mut arena = arena_with_particles_at(&[(40.0, 0.0), (300.0, 0.0)]);
    arena.particles[0].mouse_influence.affected = true;
    arena.particles[0].mouse_influence.influence_strength = fx(0.4);
    let config = InteractionConfig::default();
    let mouse = active_mouse(0.0, 0.0, 400.0);
    let before = arena.clone();
    apply_mouse_influence(&mut arena, &mouse, &config, InteractionMode::Attract, fx(0.5), &vec![]);

    // Inside the radius of 80: falloff 1 - 0.25 = 0.75.
    let near = arena.particles[1];
    assert!(near.mouse_influence.affected);
    assert_eq!(near.mouse_influence.distance_to_cursor, fx(40.0));
    assert_eq!(near.mouse_influence.influence_strength, fx(0.75));
    // 80 * 0.75 * (0.5 + 0.5 * 1) * 0.5 = 30 toward the pointer.
    assert_eq!(near.motion.velocity, v2(-30.0, 0.0));
    assert_eq!(near.visual, before.particles[1].visual);

    // Outside the radius: distance recorded, nothing else.
    let far = arena.particles[2];
    assert!(!far.mouse_influence.affected);
    assert_eq!(far.mouse_influence.distance_to_cursor, fx(300.0));
    assert_eq!(far.mouse_influence.influence_strength, 0);
    assert_eq!(far.motion, before.particles[2].motion);

    // Inactive particles are marked as unaffected.
    let idle = arena.particles[0];
    assert!(!idle.mouse_influence.affected);
    assert_eq!(idle.mouse_influence.influence_strength, 0);
    assert_eq!(idle.mouse_influence.distance_to_cursor, i64::MAX);
}

#[test]
fn pointer_influence_per_mode() {
    let config = InteractionConfig::default();
    let mouse = active_mouse(0.0, 0.0, 0.0);

    // Paint: marks only.
    let mut arena = arena_with_particles_at(&[(40.0, 0.0)]);
    let before = arena.clone();
    apply_mouse_influence(&mut arena, &mouse, &config, InteractionMode::Paint, fx(0.5), &vec![]);
    assert_eq!(arena.particles[1].motion, before.particles[1].motion);
    assert_eq!(arena.particles[1].visual, before.particles[1].visual);
    assert!(arena.particles[1].mouse_influence.affected);

    // Intensify: 80 * 0.3 * 0.75 * 0.5 = 9 toward the pointer, visuals boosted.
    let mut arena = arena_with_particles_at(&[(40.0, 0.0)]);
    apply_mouse_influence(&mut arena, &mouse, &config, InteractionMode::Intensify, fx(0.5), &vec![]);
    let p = arena.particles[1];
    assert_eq!(p.motion.velocity, v2(-9.0, 0.0));
    assert_eq!(p.visual.scale, fx(1.0 + 0.15 * 0.75 * 0.5));
    assert_eq!(p.visual.bloom_contribution, fx(0.75 * 0.2 * 0.5));
    // Average of (0.5, 0.25, 0.125) is 0.291666; boost 0.225.
    assert_eq!(p.visual.current_color.red, fx(0.5) + (fx(0.5) - 291_666) * 225 / 1000);
    assert!(p.visual.current_color.blue < fx(0.125));
    assert_eq!(p.visual.current_color.alpha, fx(1.0));

    // Disperse: 100 * 0.75 * 0.6 * 0.5 = 22.5 away, 30 * 0.75 * 0.5 up.
    let mut arena = arena_with_particles_at(&[(40.0, 0.0)]);
    apply_mouse_influence(&mut arena, &mouse, &config, InteractionMode::Disperse, fx(0.5), &vec![]);
    let p = arena.particles[1];
    assert_eq!(p.motion.velocity, v2(22.5, 11.25));
    assert_eq!(
        p.visual.current_color,
        Srgba::new(fx(0.5375), fx(0.2875), fx(0.1625), fx(1.0))
    );

    // Ripple: 25 * 0.75 * 0.3 * sine * 0.5 away; opacity sways, clamped.
    let mut arena = arena_with_particles_at(&[(40.0, 0.0)]);
    apply_mouse_influence(&mut arena, &mouse, &config, InteractionMode::Ripple, fx(0.5), &vec![0, fx(-1.0)]);
    let p = arena.particles[1];
    assert_eq!(p.motion.velocity, v2(-2.8125, 0.0));
    assert_eq!(p.visual.opacity, fx(1.0 - 0.05 * 0.75 * 0.5));
    let mut arena = arena_with_particles_at(&[(40.0, 0.0)]);
    apply_mouse_influence(&mut arena, &mouse, &config, InteractionMode::Ripple, fx(0.5), &vec![0, fx(1.0)]);
    assert_eq!(arena.particles[1].motion.velocity, v2(2.8125, 0.0));
    assert_eq!(arena.particles[1].visual.opacity, fx(1.0));
}

#[test]
fn inactive_pointer_releases_every_particle() {
    let mut arena = arena_with_particles_at(&[(40.0, 0.0)]);
    arena.particles[1].mouse_influence.affected = true;
    arena.particles[1].mouse_influence.influence_strength = fx(0.3);
    arena.particles[1].mouse_influence.distance_to_cursor = fx(12.0);
    let mouse = MouseState::default();
    let before = arena.clone();
    apply_mouse_influence(&mut arena, &mouse, &InteractionConfig::default(), InteractionMode::Attract, fx(0.5), &vec![]);
    assert!(!arena.particles[1].mouse_influence.affected);
    assert_eq!(arena.particles[1].mouse_influence.influence_strength, 0);
    assert_eq!(arena.particles[1].mouse_influence.distance_to_cursor, fx(12.0));
    assert_eq!(arena.particles[1].motion, before.particles[1].motion);
}

#[test]
fn ripple_phase_travels_outward() {
    let arena = arena_with_particles_at(&[(160.0, 0.0)]);
    let mouse = active_mouse(0.0, 0.0, 0.0);
    assert_eq!(ripple_argument(arena.particles[1], mouse, fx(0.25)), fx(1.5));
    let arguments = ripple_arguments_of(&arena, &mouse, fx(0.25));
    assert_eq!(arguments, vec![fx(-0.5), fx(1.5)]);
}

#[test]
fn pointer_tracking() {
    let mut mouse = MouseState::default();
    update_mouse_state(&mut mouse, PointerSample::At(v2(30.0, 40.0)), fx(0.1));
    assert!(mouse.is_active);
    assert_eq!(mouse.position, v2(30.0, 40.0));
    // Three tenths of the way to (300, 400).
    assert_eq!(mouse.velocity, v2(90.0, 120.0));
    // Speed 150 of 200: engagement grows by 0.1 * 0.75.
    assert_eq!(mouse.accumulated_interaction, fx(0.075));

    // No time passed: the velocity is kept.
    update_mouse_state(&mut mouse, PointerSample::At(v2(0.0, 0.0)), 0);
    assert_eq!(mouse.velocity, v2(90.0, 120.0));
    assert_eq!(mouse.position, Vec2::zero());
    assert_eq!(mouse.accumulated_interaction, fx(0.075));

    update_mouse_state(&mut mouse, PointerSample::Unavailable, fx(0.1));
    assert!(!mouse.is_active);
    assert_eq!(mouse.velocity, v2(90.0, 120.0));

    update_mouse_state(&mut mouse, PointerSample::Absent, fx(0.1));
    assert!(!mouse.is_active);
    assert_eq!(mouse.velocity, Vec2::zero());
    assert_eq!(mouse.accumulated_interaction, fx(0.075));

    // A still pointer still accumulates a tenth of the time.
    update_mouse_state(&mut mouse, PointerSample::At(Vec2::zero()), fx(1.0));
    assert_eq!(mouse.accumulated_interaction, fx(0.175));
}

#[test]
fn radius_grows_toward_its_target() {
    let mut config = InteractionConfig::default();
    let mut mouse = MouseState::default();
    calculate_interaction_radius(&mouse, &mut config);
    assert_eq!(config.current_radius, fx(80.0));

    mouse.accumulated_interaction = fx(30.0);
    calculate_interaction_radius(&mouse, &mut config);
    // Target 140: 80 + 60 * 0.05.
    assert_eq!(config.current_radius, fx(83.0));

    mouse.accumulated_interaction = fx(600.0);
    let mut previous = config.current_radius;
    for _ in 0..500 {
        calculate_interaction_radius(&mouse, &mut config);
        assert!(config.current_radius >= previous);
        assert!(config.current_radius <= fx(200.0));
        previous = config.current_radius;
    }
    assert!(config.current_radius > fx(199.9));
    assert_eq!(config.base_radius, fx(80.0));
    assert_eq!(config.max_radius, fx(200.0));
}

#[test]
fn keyboard_pulse_and_fade() {
    let mouse = active_mouse(3.0, 4.0, 0.0);
    let mut cooldown = BreathPulseCooldown::default();
    let mut fade = GentleFadeState::default();

    let events = handle_keyboard_input(true, false, &mouse, &mut cooldown, &mut fade, fx(0.016));
    assert_eq!(events.breath_pulse, Some(BreathPulse { origin: v2(3.0, 4.0), strength: fx(1.0) }));
    assert_eq!(events.gentle_fade, None);
    assert_eq!(cooldown.remaining_seconds, fx(0.4));

    // Within the cooldown the key does nothing.
    let events = handle_keyboard_input(true, false, &mouse, &mut cooldown, &mut fade, fx(0.3));
    assert_eq!(events.breath_pulse, None);
    assert_eq!(cooldown.remaining_seconds, fx(0.1));
    let events = handle_keyboard_input(true, false, &mouse, &mut cooldown, &mut fade, fx(0.1));
    assert!(events.breath_pulse.is_some());

    // Escape starts the fade once.
    let events = handle_keyboard_input(false, true, &mouse, &mut cooldown, &mut fade, fx(0.1));
    assert_eq!(events.gentle_fade, Some(GentleFade { duration_seconds: fx(3.0) }));
    assert!(fade.is_active);
    assert_eq!(fade.remaining_seconds, fx(3.0));
    fade.remaining_seconds = fx(1.0);
    let events = handle_keyboard_input(false, true, &mouse, &mut cooldown, &mut fade, fx(0.1));
    assert_eq!(events.gentle_fade, None);
    assert_eq!(fade.remaining_seconds, fx(1.0));

    assert!(!update_gentle_fade(&mut fade, fx(0.4)));
    assert_eq!(fade.remaining_seconds, fx(0.6));
    assert!(update_gentle_fade(&mut fade, fx(0.6)));
    let mut idle = GentleFadeState::default();
    assert!(!update_gentle_fade(&mut idle, fx(10.0)));
    assert_eq!(idle, GentleFadeState::default());
}

#[test]
fn a_wrap_starts_hyperspace_from_the_origin() {
    let jump = Some(HyperspaceJumpEvent { vanishing_point: Vec2::zero() });

    // Without a wrap nothing happens.
    let mut state = HyperspaceState::default();
    assert_eq!(hyperspace_after_wrap(&mut state, false), None);
    assert_eq!(state, HyperspaceState::default());

    // A wrap starts the effect from the origin with its full duration.
    let mut state = HyperspaceState { vanishing_point: v2(7.0, 7.0), ..HyperspaceState::default() };
    assert_eq!(hyperspace_after_wrap(&mut state, true), jump);
    assert_eq!(
        state,
        HyperspaceState {
            is_active: true,
            vanishing_point: Vec2::zero(),
            remaining_seconds: fx(1.5),
            total_duration: fx(1.5),
        }
    );

    // A running effect is announced again but neither moved nor restarted.
    let running = HyperspaceState {
        is_active: true,
        vanishing_point: v2(3.0, 4.0),
        remaining_seconds: fx(0.4),
        total_duration: fx(1.5),
    };
    let mut state = running;
    assert_eq!(hyperspace_after_wrap(&mut state, true), jump);
    assert_eq!(state, running);
    let mut state = running;
    assert_eq!(hyperspace_after_wrap(&mut state, false), None);
    assert_eq!(state, running);
}

#[test]
fn mouse_buttons() {
    let mouse = active_mouse(3.0, 4.0, 0.0);
    let mut hyperspace = HyperspaceState::default();
    let events = handle_mouse_clicks(true, true, &mouse, &mut hyperspace);
    assert_eq!(events.explosion, Some(ExplosionEvent { origin: v2(3.0, 4.0), strength: fx(1.0) }));
    assert_eq!(events.hyperspace, Some(HyperspaceJumpEvent { vanishing_point: v2(3.0, 4.0) }));
    assert!(hyperspace.is_active);
    assert_eq!(hyperspace.remaining_seconds, fx(1.5));
    assert_eq!(hyperspace.vanishing_point, v2(3.0, 4.0));

    // A running effect is not restarted.
    hyperspace.remaining_seconds = fx(0.2);
    let events = handle_mouse_clicks(false, true, &mouse, &mut hyperspace);
    assert_eq!(events.hyperspace, None);
    assert_eq!(events.explosion, None);
    assert_eq!(hyperspace.remaining_seconds, fx(0.2));

    // An inactive pointer triggers nothing.
    let mut hyperspace = HyperspaceState::default();
    let events = handle_mouse_clicks(true, true, &MouseState::default(), &mut hyperspace);
    assert_eq!(events.explosion, None);
    assert_eq!(events.hyperspace, None);
    assert!(!hyperspace.is_active);
}

fn point(id: u64, x: f64, y: f64) -> TouchPoint {
    TouchPoint { id, position: v2(x, y), world_position: Some(v2(x - 100.0, 100.0 - y)) }
}

fn frame(pressed: Vec<TouchPoint>, just_pressed: Vec<TouchPoint>, released: Vec<u64>, canceled: Vec<u64>) -> TouchFrame {
    TouchFrame { pressed, just_pressed, just_released: released, just_canceled: canceled }
}

#[test]
fn single_touch_drives_the_pointer() {
    let mut mouse = MouseState::default();
    let mut touch = TouchState::default();
    let down = point(7, 150.0, 60.0);
    update_touch_state(&mut mouse, &mut touch, &frame(vec![down], vec![down], vec![], vec![]), fx(1.0), fx(0.1));
    assert_eq!(touch.primary_touch_id, Some(7));
    assert_eq!(touch.primary_start_pos, v2(150.0, 60.0));
    assert_eq!(touch.primary_current_pos, v2(150.0, 60.0));
    assert_eq!(touch.primary_start_time, fx(1.0));
    assert_eq!(touch.touch_count, 1);
    assert_eq!(touch.peak_touch_count, 1);
    assert!(mouse.is_active);
    assert_eq!(mouse.position, v2(50.0, 40.0));

    let moved = point(7, 160.0, 60.0);
    update_touch_state(&mut mouse, &mut touch, &frame(vec![moved], vec![], vec![], vec![]), fx(1.1), fx(0.1));
    assert_eq!(touch.primary_current_pos, v2(160.0, 60.0));
    assert_eq!(touch.primary_start_pos, v2(150.0, 60.0));
    assert_eq!(mouse.position, v2(60.0, 40.0));

    // Lifting the finger ends the touch and deactivates the pointer.
    update_touch_state(&mut mouse, &mut touch, &frame(vec![], vec![], vec![7], vec![]), fx(1.2), fx(0.1));
    assert_eq!(touch.primary_touch_id, None);
    assert_eq!(touch.touch_count, 0);
    assert_eq!(touch.peak_touch_count, 0);
    assert!(!mouse.is_active);
    assert_eq!(mouse.velocity, Vec2::zero());
}

#[test]
fn second_finger_and_cancel() {
    let mut mouse = MouseState::default();
    let mut touch = TouchState::default();
    let a = point(1, 10.0, 10.0);
    let b = point(2, 20.0, 20.0);
    let c = point(3, 30.0, 30.0);
    update_touch_state(&mut mouse, &mut touch, &frame(vec![a], vec![a], vec![], vec![]), fx(1.0), fx(0.1));
    touch.hold_triggered = true;
    update_touch_state(&mut mouse, &mut touch, &frame(vec![a, b, c], vec![b, c], vec![], vec![]), fx(1.2), fx(0.1));
    assert_eq!(touch.primary_touch_id, Some(1));
    assert_eq!(touch.secondary_touch_id, Some(2));
    assert_eq!(touch.secondary_start_time, fx(1.2));
    assert_eq!(touch.touch_count, 3);
    assert_eq!(touch.peak_touch_count, 3);
    assert_eq!(touch.multi_touch_start_time, fx(1.2));
    assert!(touch.hold_triggered);

    // The secondary finger lifts: the primary stays, the peak stays.
    update_touch_state(&mut mouse, &mut touch, &frame(vec![a, c], vec![], vec![2], vec![]), fx(1.3), fx(0.1));
    assert_eq!(touch.secondary_touch_id, None);
    assert_eq!(touch.primary_touch_id, Some(1));
    assert_eq!(touch.peak_touch_count, 3);
    assert!(mouse.is_active);

    // The primary touch is cancelled: the pointer goes inactive but keeps
    // its velocity.
    let velocity = mouse.velocity;
    update_touch_state(&mut mouse, &mut touch, &frame(vec![c], vec![], vec![], vec![1]), fx(1.4), fx(0.1));
    assert_eq!(touch.primary_touch_id, None);
    assert!(!touch.hold_triggered);
    assert!(!mouse.is_active);
    assert_eq!(mouse.velocity, velocity);

    // With two fingers down, lifting the primary keeps the pointer active.
    let mut mouse = MouseState::default();
    let mut touch = TouchState::default();
    update_touch_state(&mut mouse, &mut touch, &frame(vec![a, b], vec![a, b], vec![], vec![]), fx(2.0), fx(0.1));
    update_touch_state(&mut mouse, &mut touch, &frame(vec![a, b], vec![], vec![1], vec![]), fx(2.1), fx(0.1));
    assert_eq!(touch.primary_touch_id, None);
    assert_eq!(touch.secondary_touch_id, None);
    assert!(mouse.is_active);
}

#[test]
fn tap_hold_and_two_finger_gestures() {
    let world = Some(v2(5.0, 6.0));
    let pressed = TouchState {
        primary_touch_id: Some(9),
        primary_start_pos: v2(100.0, 100.0),
        primary_current_pos: v2(110.0, 100.0),
        primary_start_time: fx(10.0),
        touch_count: 1,
        peak_touch_count: 1,
        ..TouchState::default()
    };

    // A quick release close to the start is a tap.
    let mut touch = pressed;
    let mut hyperspace = HyperspaceState::default();
    let events = handle_touch_gestures(&mut touch, &mut hyperspace, &vec![9], world, fx(10.2));
    assert_eq!(events.explosion, Some(ExplosionEvent { origin: v2(5.0, 6.0), strength: fx(1.0) }));
    assert_eq!(events.hyperspace, None);
    assert_eq!(touch, pressed);

    // Too late, too far, or another finger: no tap.
    let mut touch = pressed;
    assert_eq!(handle_touch_gestures(&mut touch, &mut hyperspace, &vec![9], world, fx(10.3)).explosion, None);
    let mut touch = TouchState { primary_current_pos: v2(130.0, 100.0), ..pressed };
    assert_eq!(handle_touch_gestures(&mut touch, &mut hyperspace, &vec![9], world, fx(10.2)).explosion, None);
    let mut touch = pressed;
    assert_eq!(handle_touch_gestures(&mut touch, &mut hyperspace, &vec![8], world, fx(10.2)).explosion, None);
    let mut touch = pressed;
    assert_eq!(handle_touch_gestures(&mut touch, &mut hyperspace, &vec![9], None, fx(10.2)).explosion, None);

    // A hold fires once per press, with a stronger explosion.
    let mut touch = pressed;
    let events = handle_touch_gestures(&mut touch, &mut hyperspace, &vec![], world, fx(10.5));
    assert_eq!(events.explosion, Some(ExplosionEvent { origin: v2(5.0, 6.0), strength: fx(1.5) }));
    assert!(touch.hold_triggered);
    let events = handle_touch_gestures(&mut touch, &mut hyperspace, &vec![], world, fx(10.6));
    assert_eq!(events.explosion, None);
    let mut touch = pressed;
    assert_eq!(handle_touch_gestures(&mut touch, &mut hyperspace, &vec![], world, fx(10.49)).explosion, None);

    // A quick two-finger release starts hyperspace and latches.
    let two = TouchState {
        secondary_touch_id: Some(10),
        touch_count: 1,
        peak_touch_count: 2,
        multi_touch_start_time: fx(10.1),
        ..pressed
    };
    let mut touch = two;
    let mut hyperspace = HyperspaceState::default();
    let events = handle_touch_gestures(&mut touch, &mut hyperspace, &vec![10], world, fx(10.5));
    assert_eq!(events.hyperspace, Some(HyperspaceJumpEvent { vanishing_point: v2(5.0, 6.0) }));
    assert_eq!(events.explosion, None);
    assert!(touch.two_finger_triggered);
    assert_eq!(touch.primary_touch_id, None);
    assert_eq!(touch.secondary_touch_id, None);
    assert!(hyperspace.is_active);
    assert_eq!(hyperspace.vanishing_point, v2(5.0, 6.0));
    assert_eq!(hyperspace.remaining_seconds, fx(1.5));

    // Too slow, already latched, nothing lifted, or effect running: nothing.
    for (state, released, now, running) in [
        (two, vec![10u64], 10.55, false),
        (TouchState { two_finger_triggered: true, ..two }, vec![10], 10.5, false),
        (two, vec![], 10.3, false),
        (two, vec![10], 10.3, true),
    ] {
        let mut touch = state;
        let mut hyperspace = HyperspaceState { is_active: running, ..HyperspaceState::default() };
        let events = handle_touch_gestures(&mut touch, &mut hyperspace, &released, world, fx(now));
        assert_eq!(events.hyperspace, None);
        assert_eq!(events.explosion, None);
        assert_eq!(touch, state);
    }
}
