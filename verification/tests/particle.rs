use whirled_peas::color::Srgba;
use whirled_peas::components::{ParticleBehavior, ParticleBundle, Visibility};
use whirled_peas::particle::{
    activate_particle, apply_particle_behavior, apply_saturation_multiplier, apply_turbulence,
    apply_velocity_changes, beat_spawn_angle, beat_spawn_request, behavior_force,
    despawn_expired_particles, drag_exponent, integrate_particle_motion,
    interaction_mode_is_paint, limit_speed, mouse_spawn_rate, mouse_spawn_request,
    plan_beat_spawn, select_spawn_color, setup_particle_pool, spawn_color,
    spawn_particles_from_beat, spawn_particles_from_mouse, spawn_particles_from_queue,
    sync_sprite_visuals, turbulence_arguments, turbulence_arguments_of, update_particle_lifetime,
    BeatSamples, BeatSpawnPlan, Harmonics, ParticleArena, SpawnPattern, BASE_LIFETIME_MS,
    HELD_SPAWN_RATE_MAX, MAX_ACTIVE, MEDIUM_BEAT_SPAWN_RANGE, MOUSE_SPAWN_RATE_MAX,
    MOUSE_SPAWN_RATE_MIN, PEA_BASE_SIZE, POOL_CAPACITY, SOFT_BEAT_SPAWN_RANGE,
    STRONG_BEAT_SPAWN_RANGE,
};
use whirled_peas::resources::{
    ColorPalette, CurrentInteractionMode, InterpolatedActValues, MouseState, ParticleSpawnQueue,
    ParticleSpawnRequest,
};
use whirled_peas::rng::{random_between, random_unit};
use whirled_peas::types::{Act, BeatStrength, InteractionMode, ParticleBehaviorType, SpawnSource};
use whirled_peas::vector::Vec2;

fn fx(v: f64) -> i64 {
    (v * 1_000_000.0).round() as i64
}

fn fl(v: i64) -> f64 {
    v as f64 / 1_000_000.0
}

fn v2(x: f64, y: f64) -> Vec2 {
    Vec2::new(fx(x), fx(y))
}

#[test]
fn test_spawn_pattern_constants() {
    assert!(SOFT_BEAT_SPAWN_RANGE.0 < SOFT_BEAT_SPAWN_RANGE.1);
    assert!(MEDIUM_BEAT_SPAWN_RANGE.0 < MEDIUM_BEAT_SPAWN_RANGE.1);
    assert!(STRONG_BEAT_SPAWN_RANGE.0 < STRONG_BEAT_SPAWN_RANGE.1);

    // Medium should spawn more than soft
    assert!(MEDIUM_BEAT_SPAWN_RANGE.0 >= SOFT_BEAT_SPAWN_RANGE.0);
    // Strong should spawn more than medium
    assert!(STRONG_BEAT_SPAWN_RANGE.0 >= MEDIUM_BEAT_SPAWN_RANGE.0);
}

#[test]
fn test_pool_constants() {
    assert!(MAX_ACTIVE <= POOL_CAPACITY);
    assert!(POOL_CAPACITY > 0);
    assert!(MAX_ACTIVE > 0);
}

#[test]
fn test_mouse_spawn_rate_range() {
    assert!(MOUSE_SPAWN_RATE_MIN > fx(0.0));
    assert!(MOUSE_SPAWN_RATE_MAX > MOUSE_SPAWN_RATE_MIN);
}

#[test]
fn test_saturation_multiplier() {
    let white = Srgba::white();

    // Multiplier of 1.0 should not change the color significantly
    let result = apply_saturation_multiplier(white, fx(1.0));
    assert!((fl(result.red) - 1.0).abs() < 0.01);

    // Multiplier of 0.0 should result in grayscale
    let colored = Srgba::rgb(fx(1.0), fx(0.0), fx(0.0));
    let gray_result = apply_saturation_multiplier(colored, fx(0.0));
    // Red component should equal gray value
    let expected_gray = 0.299; // Luminance of pure red
    assert!((fl(gray_result.red) - expected_gray).abs() < 0.01);
}

#[test]
fn test_beat_strength_spawning() {
    // Silence should not spawn
    assert!(!BeatStrength::Silence.should_spawn());

    // All other strengths should spawn
    assert!(BeatStrength::Soft.should_spawn());
    assert!(BeatStrength::Medium.should_spawn());
    assert!(BeatStrength::Strong.should_spawn());
}

fn check_pool(arena: &ParticleArena) {
    let pool = &arena.pool;
    assert_eq!(arena.particles.len() as u32, pool.pool_capacity);
    assert_eq!(pool.active_count as usize + pool.available_entities.len(), pool.pool_capacity as usize);
    assert!(pool.active_count <= pool.max_active);
    let active = arena.particles.iter().filter(|p| p.state.active).count();
    assert_eq!(active, pool.active_count as usize);
    let mut seen = vec![false; arena.particles.len()];
    for &id in &pool.available_entities {
        assert!(!seen[id as usize], "slot {} is free twice", id);
        seen[id as usize] = true;
        assert!(!arena.particles[id as usize].state.active);
    }
    for (i, p) in arena.particles.iter().enumerate() {
        assert_eq!(p.particle.id as usize, i);
        assert_eq!(p.state.active, !seen[i]);
    }
}

fn request(n: i64, source: SpawnSource) -> ParticleSpawnRequest {
    ParticleSpawnRequest {
        position: Vec2::new(n, 2 * n),
        initial_velocity: Vec2::new(-n, n),
        color: Srgba::new(n, 0, 0, fx(1.0)),
        lifetime_ms: fx(1000.0) + n,
        source,
    }
}

fn queue_of(count: i64, source: SpawnSource) -> ParticleSpawnQueue {
    let mut queue = ParticleSpawnQueue::default();
    for n in 0..count {
        queue.pending_spawns.push(request(n, source));
    }
    queue
}

#[test]
fn standard_pool_after_setup() {
    let arena = setup_particle_pool();
    assert_eq!(arena.pool.pool_capacity, 15000);
    assert_eq!(arena.pool.max_active, 10000);
    assert_eq!(arena.pool.active_count, 0);
    assert_eq!(arena.pool.available_entities.len(), 15000);
    assert_eq!(arena.particles.len(), 15000);
    assert_eq!(arena.pool.available_entities[0], 0);
    assert_eq!(arena.pool.available_entities[14999], 14999);
    assert_eq!(arena.particles[4711], ParticleBundle::new(4711));
    check_pool(&arena);
}

#[test]
fn spawn_queue_under_pressure() {
    // Five free slots, and the active count three below the ceiling.
    let mut arena = ParticleArena::new(10, 8);
    let values = InterpolatedActValues::default();
    let mut queue = queue_of(5, SpawnSource::Automatic);
    spawn_particles_from_queue(&mut arena, &mut queue, &values);
    assert_eq!(arena.pool.active_count, 5);
    assert_eq!(arena.pool.available_entities, vec![0, 1, 2, 3, 4]);
    check_pool(&arena);

    let original = arena.pool.available_entities.len();
    let before = arena.clone();
    let mut queue = queue_of(40, SpawnSource::Mouse);
    spawn_particles_from_queue(&mut arena, &mut queue, &values);
    assert_eq!(arena.pool.active_count, 8);
    assert_eq!(arena.pool.available_entities.len(), original - 3);
    assert_eq!(arena.pool.available_entities, vec![0, 1]);
    assert!(queue.pending_spawns.is_empty());
    check_pool(&arena);

    // The first three requests were served, from the top of the stack down.
    for (turn, id) in [4usize, 3, 2].into_iter().enumerate() {
        let p = arena.particles[id];
        let r = request(turn as i64, SpawnSource::Mouse);
        assert!(p.state.active);
        assert_eq!(p.transform.translation, r.position);
        assert_eq!(p.motion.velocity, r.initial_velocity);
        assert_eq!(p.visual.base_color, r.color);
        assert_eq!(p.state.lifetime_total_ms, r.lifetime_ms);
        assert_eq!(p.spawnable.spawn_source, SpawnSource::Mouse);
    }
    // Everything else is untouched.
    for id in [0usize, 1, 5, 6, 7, 8, 9] {
        assert_eq!(arena.particles[id], before.particles[id]);
    }

    // At the ceiling every request is dropped.
    let frozen = arena.clone();
    let mut queue = queue_of(4, SpawnSource::Beat);
    spawn_particles_from_queue(&mut arena, &mut queue, &values);
    assert!(queue.pending_spawns.is_empty());
    assert_eq!(arena.particles, frozen.particles);
    assert_eq!(arena.pool, frozen.pool);
}

#[test]
fn spawn_stops_when_the_stack_is_empty() {
    let mut arena = ParticleArena::new(3, 3);
    let mut queue = queue_of(7, SpawnSource::Beat);
    queue.spawn_rate_per_second = fx(17.0);
    queue.spawn_accumulator = fx(0.01);
    spawn_particles_from_queue(&mut arena, &mut queue, &InterpolatedActValues::default());
    assert_eq!(arena.pool.active_count, 3);
    assert!(arena.pool.available_entities.is_empty());
    assert!(queue.pending_spawns.is_empty());
    assert_eq!(queue.spawn_rate_per_second, fx(17.0));
    assert_eq!(queue.spawn_accumulator, fx(0.01));
    check_pool(&arena);
}

#[test]
fn activation_sets_up_the_particle() {
    let mut p = ParticleBundle::new(3);
    p.visual.scale = fx(1.7);
    p.visual.bloom_contribution = fx(0.3);
    p.motion.acceleration = v2(9.0, 9.0);
    p.behavior.target_position = Some(v2(1.0, 1.0));
    p.behavior.behavior_strength = fx(0.2);
    let r = request(5, SpawnSource::Beat);
    activate_particle(&mut p, &r, ParticleBehaviorType::Orbit, fx(0.25));
    assert!(p.state.active);
    assert_eq!(p.state.lifetime_remaining_ms, r.lifetime_ms);
    assert_eq!(p.state.lifetime_total_ms, r.lifetime_ms);
    assert_eq!(p.transform.translation, r.position);
    assert_eq!(p.transform.scale, fx(1.7));
    assert_eq!(p.visual.base_color, r.color);
    assert_eq!(p.visual.current_color, r.color);
    assert_eq!(p.visual.opacity, fx(1.0));
    assert_eq!(p.visual.scale, fx(1.7));
    assert_eq!(p.visual.bloom_contribution, fx(0.3));
    assert_eq!(p.motion.velocity, r.initial_velocity);
    assert_eq!(p.motion.acceleration, Vec2::zero());
    assert_eq!(p.motion.drag, fx(0.92));
    assert_eq!(p.motion.turbulence_seed, fx(250.0));
    assert_eq!(
        p.behavior,
        ParticleBehavior {
            behavior_type: ParticleBehaviorType::Orbit,
            behavior_strength: fx(1.0),
            target_position: None,
        }
    );
    assert_eq!(p.spawnable.spawn_source, SpawnSource::Beat);
    assert_eq!(p.visibility, Visibility::Visible);
    assert_eq!(p.particle.id, 3);
}

#[test]
fn spawned_particles_get_seeds_in_range() {
    let mut arena = ParticleArena::new(200, 200);
    let mut queue = queue_of(200, SpawnSource::Mouse);
    spawn_particles_from_queue(&mut arena, &mut queue, &InterpolatedActValues::default());
    let mut distinct = std::collections::BTreeSet::new();
    for p in &arena.particles {
        assert!(0 <= p.motion.turbulence_seed && p.motion.turbulence_seed < fx(1000.0));
        distinct.insert(p.motion.turbulence_seed);
    }
    assert!(distinct.len() > 100);
}

#[test]
fn a_recycled_slot_forgets_its_life_but_keeps_its_trail() {
    let mut arena = ParticleArena::new(1, 1);
    let values = InterpolatedActValues::default();
    let mut queue = ParticleSpawnQueue::default();
    let first = ParticleSpawnRequest {
        position: v2(10.0, 10.0),
        initial_velocity: v2(60.0, 0.0),
        color: Srgba::rgb(fx(1.0), 0, 0),
        lifetime_ms: fx(50.0),
        source: SpawnSource::Mouse,
    };
    queue.pending_spawns.push(first);
    spawn_particles_from_queue(&mut arena, &mut queue, &values);

    // Simulate three ticks of a sixtieth of a second.
    let dt = fx(1.0 / 60.0);
    for tick in 0..3 {
        update_particle_lifetime(&mut arena, dt);
        despawn_expired_particles(&mut arena);
        apply_particle_behavior(&mut arena);
        integrate_particle_motion(&mut arena, dt);
        apply_velocity_changes(&mut arena, dt, &vec![fx(0.98)]);
        whirled_peas::trail::update_trails(&mut arena, fx(16.0 * (tick as f64 + 1.0)));
        whirled_peas::trail::decay_trail_opacity(&mut arena, fx(0.95));
        check_pool(&arena);
    }
    assert!(!arena.particles[0].state.active);
    assert_eq!(arena.particles[0].state.lifetime_remaining_ms, 0);
    assert_eq!(arena.particles[0].visibility, Visibility::Hidden);
    assert_eq!(arena.pool.available_entities, vec![0]);
    let old_trail = arena.particles[0].trail;
    assert!(old_trail.iter_segments()[0].opacity > 0);

    let second = ParticleSpawnRequest {
        position: v2(-5.0, 7.0),
        initial_velocity: v2(0.0, -3.0),
        color: Srgba::rgb(0, 0, fx(1.0)),
        lifetime_ms: fx(4000.0),
        source: SpawnSource::Beat,
    };
    queue.pending_spawns.push(second);
    spawn_particles_from_queue(&mut arena, &mut queue, &values);
    let p = arena.particles[0];
    assert!(p.state.active);
    assert_eq!(p.state.lifetime_remaining_ms, fx(4000.0));
    assert_eq!(p.state.lifetime_total_ms, fx(4000.0));
    assert_eq!(p.transform.translation, second.position);
    assert_eq!(p.motion.velocity, second.initial_velocity);
    assert_eq!(p.motion.acceleration, Vec2::zero());
    assert_eq!(p.visual.base_color, second.color);
    assert_eq!(p.visual.current_color, second.color);
    assert_eq!(p.visual.opacity, fx(1.0));
    assert_eq!(p.spawnable.spawn_source, SpawnSource::Beat);
    assert_eq!(p.visibility, Visibility::Visible);
    // The trail of the first life is carried over ...
    assert_eq!(p.trail, old_trail);
    // ... and fades away with time.
    let mut brightest = old_trail.iter_segments().iter().map(|s| s.opacity).max().unwrap();
    for _ in 0..200 {
        whirled_peas::trail::decay_trail_opacity(&mut arena, fx(0.95));
        let now = arena.particles[0].trail.iter_segments().iter().map(|s| s.opacity).max().unwrap();
        assert!(now < brightest || now == 0);
        brightest = now;
    }
    assert_eq!(brightest, 0);
}

#[test]
fn lifetime_runs_down_and_expired_particles_return() {
    let mut arena = ParticleArena::new(4, 4);
    let mut queue = ParticleSpawnQueue::default();
    for lifetime in [30.0, 10.0, 20.0] {
        let mut r = ParticleSpawnRequest::default();
        r.lifetime_ms = fx(lifetime);
        queue.pending_spawns.push(r);
    }
    spawn_particles_from_queue(&mut arena, &mut queue, &InterpolatedActValues::default());
    // Slots 3, 2, 1 live 30, 10 and 20 ms; slot 0 is free.
    update_particle_lifetime(&mut arena, fx(0.02));
    assert_eq!(arena.particles[3].state.lifetime_remaining_ms, fx(10.0));
    assert_eq!(arena.particles[2].state.lifetime_remaining_ms, fx(-10.0));
    assert_eq!(arena.particles[1].state.lifetime_remaining_ms, 0);
    assert_eq!(arena.particles[0].state.lifetime_remaining_ms, 0);
    assert_eq!(arena.particles[3].state.lifetime_total_ms, fx(30.0));

    despawn_expired_particles(&mut arena);
    assert!(arena.particles[3].state.active);
    assert!(!arena.particles[2].state.active);
    assert!(!arena.particles[1].state.active);
    assert_eq!(arena.particles[2].state.lifetime_remaining_ms, 0);
    assert_eq!(arena.particles[2].visibility, Visibility::Hidden);
    assert_eq!(arena.particles[3].visibility, Visibility::Visible);
    assert_eq!(arena.pool.available_entities, vec![0, 1, 2]);
    assert_eq!(arena.pool.active_count, 1);
    check_pool(&arena);

    // Nothing more expires.
    let frozen = arena.clone();
    despawn_expired_particles(&mut arena);
    assert_eq!(arena.particles, frozen.particles);
    assert_eq!(arena.pool, frozen.pool);
}

fn behavior(kind: ParticleBehaviorType, strength: f64, target: Option<Vec2>) -> ParticleBehavior {
    ParticleBehavior { behavior_type: kind, behavior_strength: fx(strength), target_position: target }
}

#[test]
fn behavior_forces() {
    let drift = ParticleBehaviorType::Drift;
    let swarm = ParticleBehaviorType::Swarm;
    let orbit = ParticleBehaviorType::Orbit;
    let disperse = ParticleBehaviorType::Disperse;
    let float = ParticleBehaviorType::Float;
    // Drift: (r - 0.5) * 30 per axis.
    assert_eq!(behavior_force(behavior(drift, 1.0, None), v2(5.0, 5.0), fx(0.75), fx(0.25)), v2(7.5, -7.5));
    assert_eq!(behavior_force(behavior(drift, 0.5, None), v2(5.0, 5.0), 0, fx(0.5)), v2(-7.5, 0.0));
    // Swarm: (300 / (distance + 100)) * 50 toward the origin.
    assert_eq!(behavior_force(behavior(swarm, 1.0, None), v2(200.0, 0.0), 0, 0), v2(-50.0, 0.0));
    assert_eq!(behavior_force(behavior(swarm, 2.0, Some(v2(0.0, 50.0))), v2(0.0, 0.0), 0, 0), v2(0.0, 200.0));
    assert_eq!(behavior_force(behavior(swarm, 1.0, None), v2(1.0, 0.0), 0, 0), Vec2::zero());
    // Orbit: 40 inward plus 60 a quarter turn off.
    assert_eq!(behavior_force(behavior(orbit, 1.0, None), v2(100.0, 0.0), 0, 0), v2(-40.0, -60.0));
    assert_eq!(behavior_force(behavior(orbit, 0.5, None), v2(0.0, 100.0), 0, 0), v2(30.0, -20.0));
    assert_eq!(behavior_force(behavior(orbit, 1.0, None), v2(10.0, 0.0), 0, 0), Vec2::zero());
    // Disperse: 50 up plus 20 outward.
    assert_eq!(behavior_force(behavior(disperse, 1.0, None), v2(-30.0, 0.0), 0, 0), v2(-20.0, 50.0));
    assert_eq!(behavior_force(behavior(disperse, 1.0, None), v2(0.5, 0.0), 0, 0), v2(0.0, 50.0));
    // Float: a small jitter with an upward bias.
    assert_eq!(behavior_force(behavior(float, 1.0, None), Vec2::zero(), fx(0.75), fx(0.75)), v2(2.5, 6.25));
    assert_eq!(behavior_force(behavior(float, 2.0, None), Vec2::zero(), fx(0.5), 0), v2(0.0, 5.0));
}

fn arena_with(requests: Vec<ParticleSpawnRequest>, behavior: ParticleBehaviorType) -> ParticleArena {
    let count = requests.len() as u32;
    let mut arena = ParticleArena::new(count + 1, count + 1);
    let mut queue = ParticleSpawnQueue::default();
    for r in requests.into_iter().rev() {
        queue.pending_spawns.push(r);
    }
    let mut values = InterpolatedActValues::default();
    values.particle_behavior = behavior;
    spawn_particles_from_queue(&mut arena, &mut queue, &values);
    arena
}

fn at(x: f64, y: f64, vx: f64, vy: f64) -> ParticleSpawnRequest {
    ParticleSpawnRequest {
        position: v2(x, y),
        initial_velocity: v2(vx, vy),
        ..ParticleSpawnRequest::default()
    }
}

#[test]
fn behavior_is_written_for_active_particles_only() {
    let mut arena = arena_with(vec![at(200.0, 0.0, 0.0, 0.0)], ParticleBehaviorType::Swarm);
    arena.particles[0].motion.acceleration = v2(1.0, 1.0);
    arena.particles[1].motion.acceleration = v2(1.0, 1.0);
    let before = arena.clone();
    apply_particle_behavior(&mut arena);
    assert_eq!(arena.particles[0], before.particles[0]);
    assert_eq!(arena.particles[1].motion.acceleration, v2(-50.0, 0.0));
    assert_eq!(arena.particles[1].motion.velocity, before.particles[1].motion.velocity);
    check_pool(&arena);

    let mut arena = arena_with(vec![at(0.0, 0.0, 0.0, 0.0); 50], ParticleBehaviorType::Drift);
    apply_particle_behavior(&mut arena);
    let mut distinct = std::collections::BTreeSet::new();
    for p in arena.particles.iter().filter(|p| p.state.active) {
        let a = p.motion.acceleration;
        assert!(fx(-15.0) <= a.x && a.x < fx(15.0));
        assert!(fx(-15.0) <= a.y && a.y < fx(15.0));
        distinct.insert((a.x, a.y));
    }
    assert!(distinct.len() > 25);
}

#[test]
fn motion_is_integrated_in_two_phases() {
    let mut arena = arena_with(vec![at(1.0, 2.0, 10.0, -20.0)], ParticleBehaviorType::Drift);
    arena.particles[1].motion.acceleration = v2(100.0, 0.0);
    arena.particles[0].motion.velocity = v2(5.0, 5.0);
    integrate_particle_motion(&mut arena, fx(0.5));
    // The position follows the old velocity; the acceleration has no effect yet.
    assert_eq!(arena.particles[1].transform.translation, v2(6.0, -8.0));
    assert_eq!(arena.particles[1].motion.velocity, v2(10.0, -20.0));
    assert_eq!(arena.particles[0].transform.translation, Vec2::zero());

    assert_eq!(drag_exponent(fx(0.5)), fx(30.0));
    apply_velocity_changes(&mut arena, fx(0.5), &vec![fx(1.0), fx(0.5)]);
    // (10 + 100 * 0.5) * 0.5, -20 * 0.5.
    assert_eq!(arena.particles[1].motion.velocity, v2(30.0, -10.0));
    assert_eq!(arena.particles[1].motion.acceleration, Vec2::zero());
    assert_eq!(arena.particles[0].motion.velocity, v2(5.0, 5.0));

    // Without a drag sample the velocity is not damped.
    arena.particles[1].motion.acceleration = v2(0.0, 10.0);
    apply_velocity_changes(&mut arena, fx(1.0), &vec![]);
    assert_eq!(arena.particles[1].motion.velocity, v2(30.0, 0.0));
    check_pool(&arena);
}

#[test]
fn speed_is_limited_to_five_hundred() {
    assert_eq!(limit_speed(v2(300.0, 400.0)), v2(300.0, 400.0));
    assert_eq!(limit_speed(v2(600.0, 800.0)), v2(300.0, 400.0));
    assert_eq!(limit_speed(v2(0.0, -1000.0)), v2(0.0, -500.0));
    assert_eq!(limit_speed(v2(500.0, 0.0)), v2(500.0, 0.0));
    let mut arena = arena_with(vec![at(0.0, 0.0, 3000.0, 4000.0)], ParticleBehaviorType::Drift);
    apply_velocity_changes(&mut arena, fx(0.016), &vec![fx(1.0), fx(1.0)]);
    assert_eq!(arena.particles[1].motion.velocity, v2(300.0, 400.0));
}

#[test]
fn turbulence_arguments_and_impulse() {
    let mut arena = arena_with(vec![at(100.0, 50.0, 1.0, 1.0)], ParticleBehaviorType::Drift);
    arena.particles[1].motion.turbulence_seed = fx(3.0);
    // t = 2 * 0.5 + 3 = 4.
    let arguments = turbulence_arguments(arena.particles[1], fx(2.0));
    assert_eq!(
        arguments,
        Harmonics {
            x0: fx(4.0 * 1.3 + 1.0),
            x1: fx(4.0 * 2.7 + 1.0),
            x2: fx(4.0 * 0.7 + 3.0 + 1.0),
            y0: fx(4.0 * 1.7 + 0.5),
            y1: fx(4.0 * 2.3 + 2.0),
            y2: fx(4.0 * 0.9 + 1.5 + 2.0),
        }
    );
    let all = turbulence_arguments_of(&arena, fx(2.0));
    assert_eq!(all.len(), 2);
    assert_eq!(all[1], arguments);

    let sines = Harmonics { x0: fx(1.0), x1: fx(1.0), x2: fx(1.0), y0: fx(-1.0), y1: 0, y2: fx(0.5) };
    let before = arena.clone();
    apply_turbulence(&mut arena, Act::Crescendo, &vec![sines, sines], fx(0.1));
    // Noise (1.0, -0.4) * 15 * 1.0 * 0.1.
    assert_eq!(arena.particles[1].motion.velocity, v2(1.0 + 1.5, 1.0 - 0.6));
    assert_eq!(arena.particles[1].motion.acceleration, before.particles[1].motion.acceleration);
    assert_eq!(arena.particles[0], before.particles[0]);

    let mut arena = before.clone();
    apply_turbulence(&mut arena, Act::Transcendence, &vec![sines, sines], fx(0.1));
    assert_eq!(arena.particles[1].motion.velocity, v2(1.0 + 0.45, 1.0 - 0.18));
    // No sines for a slot: no turbulence.
    let mut arena = before.clone();
    apply_turbulence(&mut arena, Act::Crescendo, &vec![sines], fx(0.1));
    assert_eq!(arena.particles, before.particles);
}

#[test]
fn sprites_fade_over_the_last_fifth() {
    let mut arena = arena_with(vec![at(0.0, 0.0, 0.0, 0.0)], ParticleBehaviorType::Drift);
    let p = &mut arena.particles[1];
    p.state.lifetime_total_ms = fx(1000.0);
    p.state.lifetime_remaining_ms = fx(500.0);
    p.visual.opacity = fx(0.8);
    p.visual.scale = fx(1.5);
    p.visual.current_color = Srgba::new(fx(0.1), fx(0.2), fx(0.3), fx(0.4));
    p.pulse_responder.current_scale_modifier = fx(1.1);
    p.transform.scale = fx(1.5);
    let before = arena.clone();
    sync_sprite_visuals(&mut arena);
    let p = arena.particles[1];
    assert_eq!(p.sprite.color, Srgba::new(fx(0.1), fx(0.2), fx(0.3), fx(0.8)));
    assert_eq!(p.sprite.custom_size, Some(fx(80.0 * 1.5 * 1.1)));
    assert_eq!(p.transform.scale, fx(1.0));
    assert_eq!(PEA_BASE_SIZE, fx(80.0));
    assert_eq!(arena.particles[0], before.particles[0]);

    arena.particles[1].state.lifetime_remaining_ms = fx(100.0);
    sync_sprite_visuals(&mut arena);
    assert_eq!(arena.particles[1].sprite.color.alpha, fx(0.4));
    arena.particles[1].state.lifetime_remaining_ms = fx(-5.0);
    sync_sprite_visuals(&mut arena);
    assert_eq!(arena.particles[1].sprite.color.alpha, 0);
    arena.particles[1].state.lifetime_total_ms = 0;
    sync_sprite_visuals(&mut arena);
    assert_eq!(arena.particles[1].sprite.color.alpha, fx(0.8));
}

#[test]
fn saturation_multiplier_exact_values() {
    let color = Srgba::new(fx(1.0), fx(0.0), fx(0.0), fx(0.5));
    assert_eq!(apply_saturation_multiplier(color, fx(1.0)), color);
    assert_eq!(
        apply_saturation_multiplier(color, fx(0.0)),
        Srgba::new(fx(0.299), fx(0.299), fx(0.299), fx(0.5))
    );
    assert_eq!(
        apply_saturation_multiplier(color, fx(0.5)),
        Srgba::new(fx(0.6495), fx(0.1495), fx(0.1495), fx(0.5))
    );
    // Above one the channels move away from the grey, capped at two.
    assert_eq!(
        apply_saturation_multiplier(color, fx(1.5)),
        Srgba::new(fx(1.3505), fx(-0.1495), fx(-0.1495), fx(0.5))
    );
    assert_eq!(apply_saturation_multiplier(color, fx(7.0)), apply_saturation_multiplier(color, fx(2.0)));
    assert_eq!(apply_saturation_multiplier(color, fx(-1.0)), apply_saturation_multiplier(color, 0));
}

#[test]
fn spawn_colors_come_from_the_palette() {
    let palette = ColorPalette::default();
    let mut values = InterpolatedActValues::default();
    values.saturation_multiplier = fx(1.0);
    assert_eq!(spawn_color(palette, values, SpawnSource::Mouse, fx(0.39)), palette.accent_spark);
    assert_eq!(spawn_color(palette, values, SpawnSource::Mouse, fx(0.4)), palette.accent_deep);
    assert_eq!(spawn_color(palette, values, SpawnSource::Mouse, fx(0.7)), palette.accent_hope);
    assert_eq!(spawn_color(palette, values, SpawnSource::Beat, fx(0.49)), palette.primary_midpoint);
    assert_eq!(spawn_color(palette, values, SpawnSource::Beat, fx(0.5)), palette.accent_spark);
    assert_eq!(spawn_color(palette, values, SpawnSource::Beat, fx(0.8)), palette.accent_deep);
    assert_eq!(spawn_color(palette, values, SpawnSource::Automatic, 0), palette.secondary_cool);
    assert_eq!(spawn_color(palette, values, SpawnSource::Automatic, fx(0.69)), palette.secondary_warm);
    assert_eq!(spawn_color(palette, values, SpawnSource::Automatic, fx(0.99)), palette.secondary_ethereal);
    values.saturation_multiplier = 0;
    let gray = spawn_color(palette, values, SpawnSource::Mouse, 0);
    assert_eq!(gray.red, gray.green);
    assert_eq!(gray.green, gray.blue);

    values.saturation_multiplier = fx(1.0);
    let mut seen = std::collections::BTreeSet::new();
    for _ in 0..300 {
        let color = select_spawn_color(&palette, &values, SpawnSource::Mouse);
        assert!(color == palette.accent_spark || color == palette.accent_deep || color == palette.accent_hope);
        seen.insert((color.red, color.green, color.blue));
    }
    assert_eq!(seen.len(), 3);
}

#[test]
fn paint_mode_is_recognised() {
    assert!(interaction_mode_is_paint(&CurrentInteractionMode { mode: InteractionMode::Paint }));
    assert!(!interaction_mode_is_paint(&CurrentInteractionMode { mode: InteractionMode::Ripple }));
}

#[test]
fn pointer_spawn_rate() {
    assert_eq!(mouse_spawn_rate(0, false), fx(8.0));
    assert_eq!(mouse_spawn_rate(fx(250.0), false), fx(11.5));
    assert_eq!(mouse_spawn_rate(fx(500.0), false), fx(15.0));
    assert_eq!(mouse_spawn_rate(fx(5000.0), false), fx(15.0));
    // Holding needs movement above ten units per second.
    assert_eq!(mouse_spawn_rate(fx(10.0), true), fx(8.14));
    // 8.28 * 8 * 0.54.
    assert_eq!(mouse_spawn_rate(fx(20.0), true), fx(35.7696));
    assert_eq!(mouse_spawn_rate(fx(250.0), true), fx(92.0));
    assert_eq!(mouse_spawn_rate(fx(500.0), true), HELD_SPAWN_RATE_MAX);
}

#[test]
fn pointer_spawns_by_rate_accumulation() {
    let palette = ColorPalette::default();
    let values = InterpolatedActValues::default();
    let mut queue = ParticleSpawnQueue::default();
    let mut mouse = MouseState::default();
    mouse.position = v2(7.0, 8.0);
    mouse.velocity = v2(100.0, 0.0);

    // An inactive pointer spawns nothing and accumulates nothing.
    spawn_particles_from_mouse(&mouse, &mut queue, &values, &palette, fx(1.0), false);
    assert!(queue.pending_spawns.is_empty());
    assert_eq!(queue.spawn_accumulator, 0);

    // A still pointer: 8 per second, an interval of 0.125.
    mouse.is_active = true;
    mouse.velocity = Vec2::zero();
    spawn_particles_from_mouse(&mouse, &mut queue, &values, &palette, fx(0.1), false);
    assert!(queue.pending_spawns.is_empty());
    assert_eq!(queue.spawn_accumulator, fx(0.1));
    spawn_particles_from_mouse(&mouse, &mut queue, &values, &palette, fx(0.3), false);
    assert_eq!(queue.pending_spawns.len(), 3);
    assert_eq!(queue.spawn_accumulator, fx(0.025));

    mouse.velocity = v2(100.0, -50.0);
    queue.pending_spawns.clear();
    queue.spawn_accumulator = 0;
    spawn_particles_from_mouse(&mouse, &mut queue, &values, &palette, fx(1.0), false);
    let rate = mouse_spawn_rate(mouse.velocity.length(), false);
    let interval = 1_000_000_000_000 / rate;
    assert_eq!(queue.pending_spawns.len() as i64, fx(1.0) / interval);
    assert_eq!(queue.spawn_accumulator, fx(1.0) % interval);
    for r in &queue.pending_spawns {
        assert_eq!(r.position, v2(7.0, 8.0));
        assert_eq!(r.source, SpawnSource::Mouse);
        assert_eq!(r.lifetime_ms, fx(6000.0));
        assert!(fx(30.0 - 25.0) <= r.initial_velocity.x && r.initial_velocity.x < fx(30.0 + 25.0));
        assert!(fx(-15.0 - 25.0) <= r.initial_velocity.y && r.initial_velocity.y < fx(-15.0 + 25.0));
    }
    assert_eq!(BASE_LIFETIME_MS, fx(5000.0));

    let exact = mouse_spawn_request(mouse, palette, values, fx(0.5), fx(0.9), 0);
    assert_eq!(exact.initial_velocity, v2(30.0, -15.0 + 20.0));
    assert_eq!(exact.color, spawn_color(palette, values, SpawnSource::Mouse, 0));
}

#[test]
fn beat_plans() {
    assert_eq!(plan_beat_spawn(BeatStrength::Silence), None);
    for (strength, low, high, pattern) in [
        (BeatStrength::Soft, 5, 10, SpawnPattern::Scatter),
        (BeatStrength::Medium, 10, 20, SpawnPattern::Ripple),
        (BeatStrength::Strong, 20, 40, SpawnPattern::Burst),
    ] {
        let mut counts = std::collections::BTreeSet::new();
        for _ in 0..200 {
            let plan = plan_beat_spawn(strength).unwrap();
            assert_eq!(plan.pattern, pattern);
            let count = plan.angles.len();
            assert!(low <= count && count <= high);
            counts.insert(count);
            for (i, &angle) in plan.angles.iter().enumerate() {
                let even = (i as i64 * 1_000_000 / count as i64) * 6_283_185 / 1_000_000;
                match pattern {
                    SpawnPattern::Scatter => assert_eq!(angle, 0),
                    SpawnPattern::Ripple => assert_eq!(angle, even),
                    SpawnPattern::Burst => {
                        assert!(even - fx(0.15) <= angle && angle < even + fx(0.15))
                    }
                }
            }
        }
        assert!(counts.len() > 1);
    }
    assert_eq!(beat_spawn_angle(SpawnPattern::Ripple, 1, 4, 0), 1_570_796);
    assert_eq!(beat_spawn_angle(SpawnPattern::Burst, 1, 4, fx(0.5)), 1_570_796);
    assert_eq!(beat_spawn_angle(SpawnPattern::Burst, 2, 4, 0), 3_141_592 - fx(0.15));
    assert_eq!(beat_spawn_angle(SpawnPattern::Ripple, 0, 0, 0), 0);
}

fn samples(a: f64, b: f64, c: f64, d: f64, lifetime: f64, color: f64) -> BeatSamples {
    BeatSamples { a: fx(a), b: fx(b), c: fx(c), d: fx(d), lifetime: fx(lifetime), color: fx(color) }
}

#[test]
fn beat_requests_by_pattern() {
    let palette = ColorPalette::default();
    let values = InterpolatedActValues::default();
    let center = v2(10.0, 20.0);
    let up = v2(0.0, 1.0);

    let r = beat_spawn_request(SpawnPattern::Scatter, center, up, samples(0.75, 0.25, 1.0, 0.0, 0.5, 0.0), palette, values);
    assert_eq!(r.position, v2(60.0, -30.0));
    assert_eq!(r.initial_velocity, v2(50.0, -50.0));
    assert_eq!(r.lifetime_ms, fx(4000.0));
    assert_eq!(r.source, SpawnSource::Beat);
    assert_eq!(r.color, spawn_color(palette, values, SpawnSource::Beat, 0));

    let r = beat_spawn_request(SpawnPattern::Ripple, center, up, samples(0.5, 0.4, 0.0, 0.0, 0.0, 0.9), palette, values);
    assert_eq!(r.position, v2(10.0, 95.0));
    assert_eq!(r.initial_velocity, v2(0.0, 50.0));
    assert_eq!(r.lifetime_ms, fx(3200.0));
    assert_eq!(r.color, spawn_color(palette, values, SpawnSource::Beat, fx(0.9)));

    let r = beat_spawn_request(SpawnPattern::Burst, center, v2(-1.0, 0.0), samples(0.2, 0.5, 0.0, 0.0, 0.75, 0.0), palette, values);
    assert_eq!(r.initial_velocity, v2(-130.0, 0.0));
    assert_eq!(r.position, v2(10.0 - 25.0, 20.0));
    assert_eq!(r.lifetime_ms, fx(4400.0));
}

#[test]
fn beat_spawns_are_queued_around_the_pointer_or_the_origin() {
    let palette = ColorPalette::default();
    let values = InterpolatedActValues::default();
    let plan = BeatSpawnPlan { pattern: SpawnPattern::Ripple, angles: vec![0, 1_570_796, 3_141_592] };
    let directions = vec![v2(1.0, 0.0), v2(0.0, 1.0)];
    let mut queue = queue_of(2, SpawnSource::Mouse);
    let mut mouse = MouseState::default();
    mouse.position = v2(1000.0, 0.0);

    spawn_particles_from_beat(&plan, &directions, &mut queue, &values, &palette, &mouse);
    assert_eq!(queue.pending_spawns.len(), 5);
    assert_eq!(queue.pending_spawns[0], request(0, SpawnSource::Mouse));
    assert_eq!(queue.pending_spawns[1], request(1, SpawnSource::Mouse));
    // The inactive pointer is ignored: the ring lies around the origin.
    let first = queue.pending_spawns[2];
    assert_eq!(first.source, SpawnSource::Beat);
    assert_eq!(first.position.y, 0);
    assert!(fx(50.0) <= first.position.x && first.position.x < fx(100.0));
    assert_eq!(first.initial_velocity.y, 0);
    assert!(fx(30.0) <= first.initial_velocity.x && first.initial_velocity.x < fx(80.0));
    assert!(fx(3200.0) <= first.lifetime_ms && first.lifetime_ms < fx(4800.0));
    let second = queue.pending_spawns[3];
    assert_eq!(second.position.x, 0);
    assert!(fx(50.0) <= second.position.y && second.position.y < fx(100.0));
    // Without a direction the particle appears at the center, at rest.
    let third = queue.pending_spawns[4];
    assert_eq!(third.position, Vec2::zero());
    assert_eq!(third.initial_velocity, Vec2::zero());

    mouse.is_active = true;
    let mut queue = ParticleSpawnQueue::default();
    spawn_particles_from_beat(&plan, &directions, &mut queue, &values, &palette, &mouse);
    assert_eq!(queue.pending_spawns[2].position, v2(1000.0, 0.0));
    assert!(queue.pending_spawns[0].position.x >= fx(1050.0));
}

#[test]
fn random_draws_stay_in_range_and_vary() {
    let mut units = std::collections::BTreeSet::new();
    let mut counts = std::collections::BTreeSet::new();
    for _ in 0..500 {
        let unit = random_unit();
        assert!(0 <= unit && unit < fx(1.0));
        units.insert(unit);
        let count = random_between(20, 40);
        assert!(20 <= count && count <= 40);
        counts.insert(count);
    }
    assert!(units.len() > 400);
    assert!(counts.len() > 10);
    assert_eq!(random_between(7, 7), 7);
    assert_eq!(random_between(u32::MAX, u32::MAX), u32::MAX);
}
