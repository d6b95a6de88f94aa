//! The particle arena: pooling, spawning, lifetime, motion and the visual
//! attributes handed to the renderer.

use vstd::prelude::*;
use crate::color::Srgba;
use crate::components::{
    TAU, ParticleBehavior, ParticleBundle, ParticleMotion, ParticleState, ParticleVisual,
    Spawnable, Sprite, Transform, Visibility,
};
use crate::fixed::{
    Fixed, from_int, fx_add, fx_clamp, fx_div, fx_min, fx_mul, fx_sub, lemma_mul_by_fraction, HALF,
    ONE,
};
use crate::resources::{
    ColorPalette, CurrentInteractionMode, InterpolatedActValues, MouseState, ParticlePool,
    ParticleSpawnQueue, ParticleSpawnRequest,
};
use crate::rng::{centered, is_unit_sample, random_between, random_unit, spread};
use crate::types::{Act, BeatStrength, InteractionMode, ParticleBehaviorType, SpawnSource};
use crate::vector::Vec2;

verus! {

/// Number of slots in the standard pool.
pub const POOL_CAPACITY: u32 = 15000;

/// Largest number of particles alive at once in the standard pool.
pub const MAX_ACTIVE: u32 = 10000;

/// Side length of a particle sprite before scaling, in pixels.
pub const PEA_BASE_SIZE: Fixed = 80_000_000;

/// Base particle lifetime in milliseconds.
pub const BASE_LIFETIME_MS: Fixed = 5_000_000_000;

/// Width of the span that turbulence seeds are drawn from.
pub const TURBULENCE_SEED_SPAN: Fixed = 1_000_000_000;

/// Reported when a beat falls on a tick.
#[derive(Clone, Copy, Debug, PartialEq, Eq, Structural)]
pub struct BeatDetected {
    /// Strength class of the beat.
    pub strength: BeatStrength,
}

/// All particle slots together with the pool that hands them out.
///
/// Slot `i` of `particles` is the particle with id `i`. A slot is either
/// active or on the pool's stack of free slots, never both and never
/// neither.
#[derive(Clone, Debug)]
pub struct ParticleArena {
    /// The slots, by id.
    pub particles: Vec<ParticleBundle>,
    /// The free slots and the counters.
    pub pool: ParticlePool,
}

impl ParticleArena {
    /// The arena is consistent: the counters balance, every slot carries
    /// its own index as id, and the stack of free slots holds exactly the
    /// inactive slots, each once.
    pub open spec fn wf(&self) -> bool {
        &&& self.particles@.len() == self.pool.pool_capacity
        &&& self.pool.balanced()
        &&& forall|i: int|
            0 <= i < self.particles@.len() ==> (#[trigger] self.particles@[i]).particle.id == i
        &&& self.pool.available_entities@.no_duplicates()
        &&& forall|k: int|
            0 <= k < self.pool.available_entities@.len() ==> self.is_free_slot(
                #[trigger] self.pool.available_entities@[k],
            )
        &&& forall|i: int|
            0 <= i < self.particles@.len() && !(#[trigger] self.particles@[i]).state.active
                ==> self.pool.available_entities@.contains(i as u32)
    }

    /// Whether `id` names a slot that is not active.
    pub open spec fn is_free_slot(&self, id: u32) -> bool {
        id < self.particles@.len() && !self.particles@[id as int].state.active
    }

    /// Whether the two arenas have the same pool and agree, slot by slot, on
    /// identity and on which slots are active.
    pub open spec fn same_occupancy(&self, other: &ParticleArena) -> bool {
        &&& self.pool == other.pool
        &&& self.particles@.len() == other.particles@.len()
        &&& forall|i: int|
            0 <= i < self.particles@.len() ==> (#[trigger] self.particles@[i]).particle
                == other.particles@[i].particle && self.particles@[i].state.active
                == other.particles@[i].state.active
    }
}

/// A change that touches neither the pool nor any slot's identity or
/// activity keeps the arena consistent.
pub proof fn lemma_same_occupancy_keeps_wf(before: &ParticleArena, after: &ParticleArena)
    requires
        before.wf(),
        after.same_occupancy(before),
    ensures
        after.wf(),
{
    assert forall|k: int| 0 <= k < after.pool.available_entities@.len() implies after.is_free_slot(
        #[trigger] after.pool.available_entities@[k],
    ) by {
        assert(before.is_free_slot(before.pool.available_entities@[k]));
    }
}

/// Distinct slot indices below `bound` are at most `bound` many.
pub proof fn lemma_distinct_ids_are_few(ids: Seq<u32>, bound: nat)
    requires
        ids.no_duplicates(),
        forall|k: int| 0 <= k < ids.len() ==> ids[k] < bound,
    ensures
        ids.len() <= bound,
    decreases bound,
{
    if ids.len() == 0 {
    } else if bound == 0 {
        assert(ids[0] < bound);
    } else {
        let top = (bound - 1) as u32;
        if exists|p: int| 0 <= p < ids.len() && ids[p] == top {
            let p = choose|p: int| 0 <= p < ids.len() && ids[p] == top;
            let rest = ids.remove(p);
            assert forall|k: int| 0 <= k < rest.len() implies rest[k] < bound - 1 by {
                if k < p {
                    assert(rest[k] == ids[k]);
                    assert(ids[k] != ids[p]);
                } else {
                    assert(rest[k] == ids[k + 1]);
                    assert(ids[k + 1] != ids[p]);
                }
            }
            assert forall|a: int, b: int| 0 <= a < rest.len() && 0 <= b < rest.len() && a != b implies rest[a]
                != rest[b] by {
                let a0 = if a < p { a } else { a + 1 };
                let b0 = if b < p { b } else { b + 1 };
                assert(rest[a] == ids[a0] && rest[b] == ids[b0]);
            }
            lemma_distinct_ids_are_few(rest, (bound - 1) as nat);
        } else {
            assert forall|k: int| 0 <= k < ids.len() implies ids[k] < bound - 1 by {
                assert(ids[k] < bound);
                assert(ids[k] != top);
            }
            lemma_distinct_ids_are_few(ids, (bound - 1) as nat);
        }
    }
}

/// While any slot is active the stack of free slots cannot hold them all:
/// at least one particle is counted as active.
pub proof fn lemma_active_slot_is_counted(arena: &ParticleArena, id: int)
    requires
        arena.wf(),
        0 <= id < arena.particles@.len(),
        arena.particles@[id].state.active,
    ensures
        arena.pool.active_count >= 1,
        !arena.pool.available_entities@.contains(id as u32),
{
    let ids = arena.pool.available_entities@;
    if ids.contains(id as u32) {
        let k = choose|k: int| 0 <= k < ids.len() && ids[k] == id as u32;
        assert(arena.is_free_slot(ids[k]));
    }
    let more = ids.push(id as u32);
    assert forall|a: int, b: int| 0 <= a < more.len() && 0 <= b < more.len() && a != b implies more[a]
        != more[b] by {
        if a < ids.len() && b < ids.len() {
        } else if a < ids.len() {
            assert(ids.contains(ids[a]));
        } else {
            assert(ids.contains(ids[b]));
        }
    }
    assert forall|k: int| 0 <= k < more.len() implies more[k] < arena.particles@.len() by {
        if k < ids.len() {
            assert(arena.is_free_slot(ids[k]));
        }
    }
    lemma_distinct_ids_are_few(more, arena.particles@.len());
}

/// The number of active particles among the first `upto` slots.
pub open spec fn active_slots(particles: Seq<ParticleBundle>, upto: int) -> nat
    decreases upto,
{
    if upto <= 0 {
        0
    } else if particles[upto - 1].state.active {
        1 + active_slots(particles, upto - 1)
    } else {
        active_slots(particles, upto - 1)
    }
}

/// A duplicate-free list that holds exactly the inactive ones of the first
/// `upto` slots is as long as the number of those slots that are not active.
proof fn lemma_free_list_counts_inactive(particles: Seq<ParticleBundle>, ids: Seq<u32>, upto: int)
    requires
        0 <= upto <= particles.len(),
        upto <= u32::MAX,
        ids.no_duplicates(),
        forall|k: int| 0 <= k < ids.len() ==> ids[k] < upto && !particles[ids[k] as int].state.active,
        forall|i: int| 0 <= i < upto && !particles[i].state.active ==> ids.contains(i as u32),
    ensures
        ids.len() + active_slots(particles, upto) == upto,
    decreases upto,
{
    if upto == 0 {
        if ids.len() > 0 {
            assert(ids[0] < upto);
        }
    } else {
        let top = (upto - 1) as u32;
        if particles[upto - 1].state.active {
            assert forall|k: int| 0 <= k < ids.len() implies ids[k] < upto - 1 by {
                assert(!particles[ids[k] as int].state.active);
            }
            lemma_free_list_counts_inactive(particles, ids, upto - 1);
        } else {
            assert(ids.contains(top));
            let p = choose|p: int| 0 <= p < ids.len() && ids[p] == top;
            let rest = ids.remove(p);
            assert forall|k: int| 0 <= k < rest.len() implies rest[k] < upto - 1
                && !particles[rest[k] as int].state.active by {
                let k0 = if k < p { k } else { k + 1 };
                assert(rest[k] == ids[k0]);
                assert(ids[k0] != ids[p]);
            }
            assert forall|a: int, b: int| 0 <= a < rest.len() && 0 <= b < rest.len() && a != b implies rest[a]
                != rest[b] by {
                let a0 = if a < p { a } else { a + 1 };
                let b0 = if b < p { b } else { b + 1 };
                assert(rest[a] == ids[a0] && rest[b] == ids[b0]);
            }
            assert forall|i: int| 0 <= i < upto - 1 && !particles[i].state.active implies rest.contains(
                i as u32,
            ) by {
                assert(ids.contains(i as u32));
                let q = choose|q: int| 0 <= q < ids.len() && ids[q] == i as u32;
                assert(q != p);
                let q0 = if q < p { q } else { q - 1 };
                assert(rest[q0] == ids[q]);
            }
            lemma_free_list_counts_inactive(particles, rest, upto - 1);
        }
    }
}

/// The pool invariant. In a consistent arena every slot is either counted
/// as active or on the free stack, the active count respects the ceiling,
/// and the active count is the number of particles that are active. No
/// slot is on the free stack twice, so no slot can be handed out twice.
pub proof fn lemma_pool_invariant(arena: &ParticleArena)
    requires
        arena.wf(),
    ensures
        arena.pool.active_count + arena.pool.available_entities@.len() == arena.pool.pool_capacity,
        arena.pool.active_count <= arena.pool.max_active,
        arena.pool.max_active <= arena.pool.pool_capacity,
        arena.pool.active_count == active_slots(arena.particles@, arena.particles@.len() as int),
        arena.pool.available_entities@.no_duplicates(),
{
    let ids = arena.pool.available_entities@;
    assert forall|k: int| 0 <= k < ids.len() implies ids[k] < arena.particles@.len()
        && !arena.particles@[ids[k] as int].state.active by {
        assert(arena.is_free_slot(ids[k]));
    }
    lemma_free_list_counts_inactive(arena.particles@, ids, arena.particles@.len() as int);
}

impl ParticleArena {
    /// An arena of `capacity` resting particles, all free, of which at most
    /// `max_active` may be alive at once. The free stack holds the ids in
    /// rising order, so the highest id is handed out first.
    pub fn new(capacity: u32, max_active: u32) -> (arena: ParticleArena)
        requires
            max_active <= capacity,
        ensures
            arena.wf(),
            arena.pool.pool_capacity == capacity,
            arena.pool.max_active == max_active,
            arena.pool.active_count == 0,
            arena.pool.available_entities@ == Seq::new(capacity as nat, |i: int| i as u32),
            forall|i: int|
                0 <= i < capacity ==> (#[trigger] arena.particles@[i]).is_fresh(i as u32),
    {
        let mut particles: Vec<ParticleBundle> = Vec::new();
        let mut available: Vec<u32> = Vec::new();
        let mut id: u32 = 0;
        while id < capacity
            invariant
                id <= capacity,
                particles@.len() == id,
                available@ == Seq::new(id as nat, |i: int| i as u32),
                forall|i: int| 0 <= i < id ==> (#[trigger] particles@[i]).is_fresh(i as u32),
            decreases capacity - id,
        {
            particles.push(ParticleBundle::new(id));
            available.push(id);
            assert(available@ =~= Seq::new((id + 1) as nat, |i: int| i as u32));
            id = id + 1;
        }
        let arena = ParticleArena {
            particles,
            pool: ParticlePool {
                available_entities: available,
                active_count: 0,
                pool_capacity: capacity,
                max_active,
            },
        };
        proof {
            let ids = arena.pool.available_entities@;
            assert forall|i: int|
                0 <= i < arena.particles@.len() && !(#[trigger] arena.particles@[i]).state.active implies ids.contains(
                i as u32,
            ) by {
                assert(ids[i] == i as u32);
            }
            assert forall|k: int| 0 <= k < ids.len() implies arena.is_free_slot(
                #[trigger] ids[k],
            ) by {
                assert(arena.particles@[k].is_fresh(k as u32));
            }
        }
        arena
    }
}

impl ParticleArena {
    /// Checks at run time whether the arena is consistent. A host that
    /// changes the arena by hand can use this before it calls a function
    /// that relies on consistency.
    pub fn is_consistent(&self) -> (ok: bool)
        ensures
            ok == self.wf(),
    {
        let count: usize = self.particles.len();
        let free: usize = self.pool.available_entities.len();
        if count > u32::MAX as usize || count as u32 != self.pool.pool_capacity {
            return false;
        }
        if self.pool.max_active > self.pool.pool_capacity || self.pool.active_count
            > self.pool.max_active || free > count || self.pool.active_count as usize != count
            - free {
            return false;
        }
        let mut i: usize = 0;
        while i < count
            invariant
                i <= count,
                count == self.particles@.len(),
                forall|j: int| 0 <= j < i ==> (#[trigger] self.particles@[j]).particle.id == j,
            decreases count - i,
        {
            if self.particles[i].particle.id as usize != i {
                return false;
            }
            i = i + 1;
        }
        let ghost ids = self.pool.available_entities@;
        let mut on_stack: Vec<bool> = Vec::new();
        let mut n: usize = 0;
        while n < count
            invariant
                n <= count,
                on_stack@.len() == n,
                forall|j: int| 0 <= j < n ==> !on_stack@[j],
            decreases count - n,
        {
            on_stack.push(false);
            n = n + 1;
        }
        let mut k: usize = 0;
        while k < free
            invariant
                k <= free,
                free == ids.len(),
                ids == self.pool.available_entities@,
                count == self.particles@.len(),
                on_stack@.len() == count,
                forall|a: int, b: int| 0 <= a < k && 0 <= b < k && a != b ==> ids[a] != ids[b],
                forall|a: int| 0 <= a < k ==> self.is_free_slot(#[trigger] ids[a]),
                forall|j: int|
                    0 <= j < count ==> (#[trigger] on_stack@[j] <==> exists|a: int|
                        0 <= a < k && ids[a] == j),
            decreases free - k,
        {
            let id: u32 = self.pool.available_entities[k];
            if id as usize >= count || self.particles[id as usize].state.active {
                proof {
                    assert(!self.is_free_slot(ids[k as int]));
                }
                return false;
            }
            if on_stack[id as usize] {
                proof {
                    let a = choose|a: int| 0 <= a < k && ids[a] == id as int;
                    assert(ids[a] == ids[k as int] && a != k);
                }
                return false;
            }
            let ghost marked = on_stack@;
            on_stack[id as usize] = true;
            proof {
                assert forall|j: int| 0 <= j < count implies (#[trigger] on_stack@[j] <==> exists|
                    a: int,
                | 0 <= a < k + 1 && ids[a] == j) by {
                    if j == id as int {
                        assert(ids[k as int] == j);
                    } else if marked[j] {
                        let a = choose|a: int| 0 <= a < k && ids[a] == j;
                        assert(0 <= a < k + 1 && ids[a] == j);
                    } else {
                        if exists|a: int| 0 <= a < k + 1 && ids[a] == j {
                            let a = choose|a: int| 0 <= a < k + 1 && ids[a] == j;
                            assert(a < k);
                        }
                    }
                }
            }
            k = k + 1;
        }
        let mut m: usize = 0;
        while m < count
            invariant
                m <= count,
                count <= u32::MAX,
                count == self.particles@.len(),
                on_stack@.len() == count,
                ids == self.pool.available_entities@,
                forall|j: int|
                    0 <= j < count ==> (#[trigger] on_stack@[j] <==> exists|a: int|
                        0 <= a < ids.len() && ids[a] == j),
                forall|j: int|
                    0 <= j < m && !(#[trigger] self.particles@[j]).state.active ==> ids.contains(
                        j as u32,
                    ),
            decreases count - m,
        {
            if !self.particles[m].state.active {
                if !on_stack[m] {
                    proof {
                        if ids.contains(m as u32) {
                            let a = choose|a: int| 0 <= a < ids.len() && ids[a] == m as u32;
                            assert(ids[a] == m as int);
                        }
                    }
                    return false;
                }
                proof {
                    let a = choose|a: int| 0 <= a < ids.len() && ids[a] == m as int;
                    assert(ids[a] == m as u32);
                }
            }
            m = m + 1;
        }
        true
    }
}

/// Builds the standard arena: fifteen thousand resting particles, at most
/// ten thousand of them alive at once.
pub fn setup_particle_pool() -> (arena: ParticleArena)
    ensures
        arena.wf(),
        arena.pool.pool_capacity == POOL_CAPACITY,
        arena.pool.max_active == MAX_ACTIVE,
        arena.pool.active_count == 0,
        arena.pool.available_entities@ == Seq::new(POOL_CAPACITY as nat, |i: int| i as u32),
        forall|i: int|
            0 <= i < POOL_CAPACITY ==> (#[trigger] arena.particles@[i]).is_fresh(i as u32),
{
    ParticleArena::new(POOL_CAPACITY, MAX_ACTIVE)
}

/// A particle brought to life by `request` while `behavior` is in force,
/// with `seed` as its turbulence seed.
///
/// Lifetime, position, velocity, colour and source come from the request;
/// acceleration starts at zero, opacity at one, drag and behavior follow
/// `behavior`, and the particle becomes visible. Scale, bloom, trail, pulse,
/// pointer bookkeeping and audio configuration are carried over from the
/// slot's previous life.
pub open spec fn activated(
    p: ParticleBundle,
    request: ParticleSpawnRequest,
    behavior: ParticleBehaviorType,
    seed: Fixed,
) -> ParticleBundle {
    ParticleBundle {
        state: ParticleState {
            active: true,
            lifetime_remaining_ms: request.lifetime_ms,
            lifetime_total_ms: request.lifetime_ms,
        },
        transform: Transform { translation: request.position, scale: p.visual.scale },
        visual: ParticleVisual {
            base_color: request.color,
            current_color: request.color,
            opacity: ONE,
            ..p.visual
        },
        motion: ParticleMotion {
            velocity: request.initial_velocity,
            acceleration: Vec2::zero(),
            drag: behavior.base_drag(),
            turbulence_seed: seed,
        },
        behavior: ParticleBehavior {
            behavior_type: behavior,
            behavior_strength: ONE,
            target_position: None,
        },
        spawnable: Spawnable { spawn_source: request.source },
        visibility: Visibility::Visible,
        ..p
    }
}

/// Whether `seed` can be the turbulence seed of a freshly spawned particle.
pub open spec fn is_turbulence_seed(seed: Fixed) -> bool {
    0 <= seed < TURBULENCE_SEED_SPAN
}

/// Activation wipes the previous life: two slots with different pasts hold
/// the same lifecycle, motion, behavior, colours, opacity, position, source
/// and visibility once the same request has been applied to both.
pub proof fn lemma_activation_forgets_prior_life(
    p: ParticleBundle,
    q: ParticleBundle,
    request: ParticleSpawnRequest,
    behavior: ParticleBehaviorType,
    seed: Fixed,
)
    ensures
        activated(p, request, behavior, seed).state == activated(q, request, behavior, seed).state,
        activated(p, request, behavior, seed).motion == activated(
            q,
            request,
            behavior,
            seed,
        ).motion,
        activated(p, request, behavior, seed).behavior == activated(
            q,
            request,
            behavior,
            seed,
        ).behavior,
        activated(p, request, behavior, seed).visual.base_color == request.color,
        activated(p, request, behavior, seed).visual.current_color == request.color,
        activated(p, request, behavior, seed).visual.opacity == ONE,
        activated(p, request, behavior, seed).motion.velocity == request.initial_velocity,
        activated(p, request, behavior, seed).motion.acceleration == Vec2::zero(),
        activated(p, request, behavior, seed).transform.translation == request.position,
        activated(p, request, behavior, seed).spawnable.spawn_source == request.source,
        activated(p, request, behavior, seed).visibility == Visibility::Visible,
{
}

/// Activation does not clear the trail: the ring of the previous life is
/// carried over as it is and fades only through decay.
pub proof fn lemma_activation_keeps_trail(
    p: ParticleBundle,
    request: ParticleSpawnRequest,
    behavior: ParticleBehaviorType,
    seed: Fixed,
)
    ensures
        activated(p, request, behavior, seed).trail == p.trail,
        activated(p, request, behavior, seed).particle == p.particle,
{
}

/// Brings the particle to life as [`activated`] describes, with the seed
/// spread from the unit sample `seed_sample`.
pub fn activate_particle(
    p: &mut ParticleBundle,
    request: &ParticleSpawnRequest,
    behavior: ParticleBehaviorType,
    seed_sample: Fixed,
)
    ensures
        *final(p) == activated(
            *old(p),
            *request,
            behavior,
            fx_mul(seed_sample, TURBULENCE_SEED_SPAN),
        ),
        is_unit_sample(seed_sample) ==> is_turbulence_seed(final(p).motion.turbulence_seed),
{
    p.state.active = true;
    p.state.lifetime_remaining_ms = request.lifetime_ms;
    p.state.lifetime_total_ms = request.lifetime_ms;
    p.transform.translation = request.position;
    p.transform.scale = p.visual.scale;
    p.visual.base_color = request.color;
    p.visual.current_color = request.color;
    p.visual.opacity = ONE;
    p.motion.velocity = request.initial_velocity;
    p.motion.acceleration = Vec2::zero();
    p.motion.drag = behavior.base_drag();
    p.motion.turbulence_seed = fx_mul(seed_sample, TURBULENCE_SEED_SPAN);
    p.behavior.behavior_type = behavior;
    p.behavior.behavior_strength = ONE;
    p.behavior.target_position = None;
    p.spawnable.spawn_source = request.source;
    p.visibility = Visibility::Visible;
    proof {
        if is_unit_sample(seed_sample) {
            assert(0 <= seed_sample * TURBULENCE_SEED_SPAN < ONE * TURBULENCE_SEED_SPAN)
                by (nonlinear_arith)
                requires
                    0 <= seed_sample < ONE,
                    TURBULENCE_SEED_SPAN == 1_000_000_000,
                    ONE == 1_000_000,
            ;
        }
    }
}

impl ParticleArena {
    /// How many particles can still be brought to life: the number of free
    /// slots or the room under the active ceiling, whichever is smaller.
    pub open spec fn spawn_room(&self) -> int {
        let free = self.pool.available_entities@.len() as int;
        let headroom = if self.pool.active_count < self.pool.max_active {
            self.pool.max_active - self.pool.active_count
        } else {
            0
        };
        if free <= headroom { free } else { headroom }
    }

    /// How many of `pending` requests succeed.
    pub open spec fn spawn_count(&self, pending: int) -> int {
        if pending <= self.spawn_room() { pending } else { self.spawn_room() }
    }

    /// The slot that the `turn`-th successful request of a tick receives:
    /// the free stack is popped from its top.
    pub open spec fn slot_for(&self, turn: int) -> u32 {
        self.pool.available_entities@[self.pool.available_entities@.len() - 1 - turn]
    }
}

/// Handing the topmost free slot to a request keeps the arena consistent.
proof fn lemma_activation_keeps_wf(before: &ParticleArena, after: &ParticleArena, id: u32)
    requires
        before.wf(),
        before.pool.available_entities@.len() > 0,
        before.pool.active_count < before.pool.max_active,
        id == before.pool.available_entities@.last(),
        after.pool.available_entities@ == before.pool.available_entities@.drop_last(),
        after.pool.active_count == before.pool.active_count + 1,
        after.pool.pool_capacity == before.pool.pool_capacity,
        after.pool.max_active == before.pool.max_active,
        after.particles@.len() == before.particles@.len(),
        after.particles@[id as int].state.active,
        after.particles@[id as int].particle == before.particles@[id as int].particle,
        forall|i: int|
            0 <= i < before.particles@.len() && i != id ==> after.particles@[i]
                == before.particles@[i],
    ensures
        after.wf(),
{
    let ids = before.pool.available_entities@;
    let rest = after.pool.available_entities@;
    assert(before.is_free_slot(ids[ids.len() - 1]));
    assert forall|k: int| 0 <= k < rest.len() implies after.is_free_slot(#[trigger] rest[k]) by {
        assert(before.is_free_slot(ids[k]));
        assert(ids[k] != ids[ids.len() - 1]);
    }
    assert forall|i: int|
        0 <= i < after.particles@.len() && !(#[trigger] after.particles@[i]).state.active implies rest.contains(
        i as u32,
    ) by {
        assert(before.particles@[i] == after.particles@[i]);
        assert(ids.contains(i as u32));
        let k = choose|k: int| 0 <= k < ids.len() && ids[k] == i as u32;
        assert(rest[k] == i as u32);
    }
    assert forall|i: int| 0 <= i < after.particles@.len() implies (#[trigger] after.particles@[i]).particle.id
        == i by {
        assert(before.particles@[i].particle.id == i);
    }
}

/// Turns the pending requests of this tick into live particles.
///
/// Requests are served in order while a free slot is left and the active
/// ceiling is not reached; every further request is dropped. The queue is
/// empty afterward either way. Each served request takes the topmost free
/// slot and sets the particle up as [`activated`] describes, with the
/// behavior currently in force and a fresh random turbulence seed. Slots
/// that receive no request are untouched.
pub fn spawn_particles_from_queue(
    arena: &mut ParticleArena,
    spawn_queue: &mut ParticleSpawnQueue,
    interpolated: &InterpolatedActValues,
)
    requires
        old(arena).wf(),
    ensures
        final(arena).wf(),
        final(spawn_queue).pending_spawns@.len() == 0,
        final(spawn_queue).spawn_rate_per_second == old(spawn_queue).spawn_rate_per_second,
        final(spawn_queue).spawn_accumulator == old(spawn_queue).spawn_accumulator,
        final(arena).pool.pool_capacity == old(arena).pool.pool_capacity,
        final(arena).pool.max_active == old(arena).pool.max_active,
        final(arena).pool.active_count == old(arena).pool.active_count + old(arena).spawn_count(
            old(spawn_queue).pending_spawns@.len() as int,
        ),
        final(arena).pool.available_entities@ == old(arena).pool.available_entities@.take(
            old(arena).pool.available_entities@.len() - old(arena).spawn_count(
                old(spawn_queue).pending_spawns@.len() as int,
            ),
        ),
        forall|turn: int|
            0 <= turn < old(arena).spawn_count(old(spawn_queue).pending_spawns@.len() as int)
                ==> #[trigger] final(arena).particles@[old(arena).slot_for(turn) as int]
                == activated(
                old(arena).particles@[old(arena).slot_for(turn) as int],
                old(spawn_queue).pending_spawns@[turn],
                interpolated.particle_behavior,
                final(arena).particles@[old(arena).slot_for(turn) as int].motion.turbulence_seed,
            ) && is_turbulence_seed(
                final(arena).particles@[old(arena).slot_for(turn) as int].motion.turbulence_seed,
            ),
        forall|i: int|
            0 <= i < old(arena).particles@.len() && final(arena).pool.available_entities@.contains(
                i as u32,
            ) ==> #[trigger] final(arena).particles@[i] == old(arena).particles@[i],
        forall|i: int|
            0 <= i < old(arena).particles@.len() && old(arena).particles@[i].state.active
                ==> #[trigger] final(arena).particles@[i] == old(arena).particles@[i],
{
    let mut pending: Vec<ParticleSpawnRequest> = Vec::new();
    std::mem::swap(&mut pending, &mut spawn_queue.pending_spawns);

    let free: usize = arena.pool.available_entities.len();
    let headroom: u32 = if arena.pool.active_count < arena.pool.max_active {
        arena.pool.max_active - arena.pool.active_count
    } else {
        0
    };
    let room: usize = if free <= headroom as usize { free } else { headroom as usize };
    let count: usize = if pending.len() <= room { pending.len() } else { room };
    let ghost start = *arena;
    let ghost ids = arena.pool.available_entities@;

    let mut turn: usize = 0;
    while turn < count
        invariant
            turn <= count,
            count == start.spawn_count(pending@.len() as int),
            start.wf(),
            ids == start.pool.available_entities@,
            arena.wf(),
            arena.particles@.len() == start.particles@.len(),
            arena.pool.pool_capacity == start.pool.pool_capacity,
            arena.pool.max_active == start.pool.max_active,
            arena.pool.active_count == start.pool.active_count + turn,
            arena.pool.available_entities@ == ids.take(ids.len() - turn),
            forall|done: int|
                0 <= done < turn ==> #[trigger] arena.particles@[start.slot_for(done) as int]
                    == activated(
                    start.particles@[start.slot_for(done) as int],
                    pending@[done],
                    interpolated.particle_behavior,
                    arena.particles@[start.slot_for(done) as int].motion.turbulence_seed,
                ) && is_turbulence_seed(
                    arena.particles@[start.slot_for(done) as int].motion.turbulence_seed,
                ),
            forall|i: int|
                0 <= i < start.particles@.len() && (arena.pool.available_entities@.contains(
                    i as u32,
                ) || start.particles@[i].state.active) ==> #[trigger] arena.particles@[i]
                    == start.particles@[i],
        decreases count - turn,
    {
        let ghost before = *arena;
        let popped = arena.pool.available_entities.pop();
        let id: u32 = popped.unwrap();
        proof {
            assert(id == ids[ids.len() - 1 - turn]);
            assert(before.is_free_slot(before.pool.available_entities@[ids.len() - 1 - turn]));
            assert(before.pool.available_entities@.contains(id));
            assert(before.particles@[id as int] == start.particles@[id as int]);
        }
        let sample = random_unit();
        let mut p = arena.particles[id as usize];
        activate_particle(&mut p, &pending[turn], interpolated.particle_behavior, sample);
        arena.particles[id as usize] = p;
        arena.pool.active_count = arena.pool.active_count + 1;
        proof {
            lemma_activation_keeps_wf(&before, arena, id);
            let rest = arena.pool.available_entities@;
            assert(rest =~= ids.take(ids.len() - (turn + 1)));
            assert forall|done: int| 0 <= done < turn + 1 implies #[trigger] arena.particles@[start.slot_for(
                done,
            ) as int] == activated(
                start.particles@[start.slot_for(done) as int],
                pending@[done],
                interpolated.particle_behavior,
                arena.particles@[start.slot_for(done) as int].motion.turbulence_seed,
            ) && is_turbulence_seed(
                arena.particles@[start.slot_for(done) as int].motion.turbulence_seed,
            ) by {
                if done < turn {
                    assert(ids[ids.len() - 1 - done] != ids[ids.len() - 1 - turn]);
                    assert(arena.particles@[start.slot_for(done) as int]
                        == before.particles@[start.slot_for(done) as int]);
                }
            }
            assert forall|i: int|
                0 <= i < start.particles@.len() && (rest.contains(i as u32)
                    || start.particles@[i].state.active) implies #[trigger] arena.particles@[i]
                == start.particles@[i] by {
                if rest.contains(i as u32) {
                    let k = choose|k: int| 0 <= k < rest.len() && rest[k] == i as u32;
                    assert(before.pool.available_entities@[k] == i as u32);
                    assert(ids[k] != ids[ids.len() - 1 - turn]);
                } else {
                    assert(!start.is_free_slot(i as u32));
                    assert(start.is_free_slot(ids[ids.len() - 1 - turn]));
                }
            }
        }
        turn = turn + 1;
    }
}

/// Milliseconds in one second.
pub const MS_PER_SECOND: Fixed = 1_000_000_000;

/// The particle after `delta_seconds` of its life have passed: an active
/// particle has that much less lifetime left, an inactive one is unchanged.
pub open spec fn aged(p: ParticleBundle, delta_seconds: Fixed) -> ParticleBundle {
    if p.state.active {
        ParticleBundle {
            state: ParticleState {
                lifetime_remaining_ms: fx_sub(
                    p.state.lifetime_remaining_ms,
                    fx_mul(delta_seconds, MS_PER_SECOND),
                ),
                ..p.state
            },
            ..p
        }
    } else {
        p
    }
}

/// Takes `delta_seconds` off the remaining lifetime of every active
/// particle.
pub fn update_particle_lifetime(arena: &mut ParticleArena, delta_seconds: Fixed)
    ensures
        final(arena).pool == old(arena).pool,
        final(arena).particles@.len() == old(arena).particles@.len(),
        forall|i: int|
            0 <= i < old(arena).particles@.len() ==> #[trigger] final(arena).particles@[i]
                == aged(old(arena).particles@[i], delta_seconds),
        old(arena).wf() ==> final(arena).wf(),
{
    let delta_ms = fx_mul(delta_seconds, MS_PER_SECOND);
    let count: usize = arena.particles.len();
    let mut i: usize = 0;
    while i < count
        invariant
            i <= count,
            count == arena.particles@.len(),
            count == old(arena).particles@.len(),
            delta_ms == fx_mul(delta_seconds, MS_PER_SECOND),
            arena.pool == old(arena).pool,
            forall|j: int|
                0 <= j < i ==> #[trigger] arena.particles@[j] == aged(
                    old(arena).particles@[j],
                    delta_seconds,
                ),
            forall|j: int| i <= j < count ==> arena.particles@[j] == old(arena).particles@[j],
        decreases count - i,
    {
        if arena.particles[i].state.active {
            let mut p = arena.particles[i];
            p.state.lifetime_remaining_ms = fx_sub(p.state.lifetime_remaining_ms, delta_ms);
            arena.particles[i] = p;
        }
        i = i + 1;
    }
    proof {
        if old(arena).wf() {
            lemma_same_occupancy_keeps_wf(old(arena), arena);
        }
    }
}

/// Whether the particle is alive but out of lifetime.
pub open spec fn is_expired(p: ParticleBundle) -> bool {
    p.state.active && p.state.lifetime_remaining_ms <= 0
}

/// The particle put to rest: inactive, hidden, with no lifetime left.
pub open spec fn retired(p: ParticleBundle) -> ParticleBundle {
    ParticleBundle {
        state: ParticleState { active: false, lifetime_remaining_ms: 0, ..p.state },
        visibility: Visibility::Hidden,
        ..p
    }
}

/// The ids of the expired particles among the first `upto` slots, in rising
/// order.
pub open spec fn expired_ids(particles: Seq<ParticleBundle>, upto: int) -> Seq<u32>
    decreases upto,
{
    if upto <= 0 {
        Seq::empty()
    } else if is_expired(particles[upto - 1]) {
        expired_ids(particles, upto - 1).push((upto - 1) as u32)
    } else {
        expired_ids(particles, upto - 1)
    }
}

/// Putting an active particle to rest and its slot on the free stack keeps
/// the arena consistent.
proof fn lemma_retirement_keeps_wf(before: &ParticleArena, after: &ParticleArena, id: int)
    requires
        before.wf(),
        0 <= id < before.particles@.len(),
        before.particles@[id].state.active,
        after.pool.available_entities@ == before.pool.available_entities@.push(id as u32),
        after.pool.active_count == before.pool.active_count - 1,
        after.pool.pool_capacity == before.pool.pool_capacity,
        after.pool.max_active == before.pool.max_active,
        after.particles@.len() == before.particles@.len(),
        !after.particles@[id].state.active,
        after.particles@[id].particle == before.particles@[id].particle,
        forall|i: int|
            0 <= i < before.particles@.len() && i != id ==> after.particles@[i]
                == before.particles@[i],
    ensures
        after.wf(),
{
    let ids = before.pool.available_entities@;
    let more = after.pool.available_entities@;
    lemma_active_slot_is_counted(before, id);
    assert forall|a: int, b: int| 0 <= a < more.len() && 0 <= b < more.len() && a != b implies more[a]
        != more[b] by {
        if a < ids.len() && b < ids.len() {
        } else if a < ids.len() {
            assert(ids.contains(ids[a]));
        } else {
            assert(ids.contains(ids[b]));
        }
    }
    assert forall|k: int| 0 <= k < more.len() implies after.is_free_slot(#[trigger] more[k]) by {
        if k < ids.len() {
            assert(before.is_free_slot(ids[k]));
            assert(ids.contains(ids[k]));
        }
    }
    assert forall|i: int|
        0 <= i < after.particles@.len() && !(#[trigger] after.particles@[i]).state.active implies more.contains(
        i as u32,
    ) by {
        if i == id {
            assert(more[ids.len() as int] == id as u32);
        } else {
            assert(before.particles@[i] == after.particles@[i]);
            let k = choose|k: int| 0 <= k < ids.len() && ids[k] == i as u32;
            assert(more[k] == i as u32);
        }
    }
    assert forall|i: int| 0 <= i < after.particles@.len() implies (#[trigger] after.particles@[i]).particle.id
        == i by {
        assert(before.particles@[i].particle.id == i);
    }
}

/// Returns every expired particle to the pool.
///
/// A particle that is active with no lifetime left is put to rest: it
/// becomes inactive and hidden, its remaining lifetime is set to zero, and
/// its slot goes on top of the free stack. Slots are visited in rising
/// order, so the expired slot with the highest id ends on top. All other
/// particles are untouched.
pub fn despawn_expired_particles(arena: &mut ParticleArena)
    requires
        old(arena).wf(),
    ensures
        final(arena).wf(),
        final(arena).particles@.len() == old(arena).particles@.len(),
        forall|i: int|
            0 <= i < old(arena).particles@.len() ==> #[trigger] final(arena).particles@[i] == (
            if is_expired(old(arena).particles@[i]) {
                retired(old(arena).particles@[i])
            } else {
                old(arena).particles@[i]
            }),
        final(arena).pool.available_entities@ == old(arena).pool.available_entities@
            + expired_ids(old(arena).particles@, old(arena).particles@.len() as int),
        final(arena).pool.active_count == old(arena).pool.active_count - expired_ids(
            old(arena).particles@,
            old(arena).particles@.len() as int,
        ).len(),
        final(arena).pool.pool_capacity == old(arena).pool.pool_capacity,
        final(arena).pool.max_active == old(arena).pool.max_active,
{
    let count: usize = arena.particles.len();
    let mut i: usize = 0;
    while i < count
        invariant
            i <= count,
            count == arena.particles@.len(),
            count == old(arena).particles@.len(),
            old(arena).wf(),
            arena.wf(),
            arena.pool.pool_capacity == old(arena).pool.pool_capacity,
            arena.pool.max_active == old(arena).pool.max_active,
            arena.pool.available_entities@ == old(arena).pool.available_entities@ + expired_ids(
                old(arena).particles@,
                i as int,
            ),
            arena.pool.active_count == old(arena).pool.active_count - expired_ids(
                old(arena).particles@,
                i as int,
            ).len(),
            forall|j: int|
                0 <= j < i ==> #[trigger] arena.particles@[j] == (if is_expired(
                    old(arena).particles@[j],
                ) {
                    retired(old(arena).particles@[j])
                } else {
                    old(arena).particles@[j]
                }),
            forall|j: int| i <= j < count ==> arena.particles@[j] == old(arena).particles@[j],
        decreases count - i,
    {
        let ghost before = *arena;
        if arena.particles[i].state.active && arena.particles[i].state.lifetime_remaining_ms <= 0 {
            proof {
                lemma_active_slot_is_counted(arena, i as int);
            }
            let mut p = arena.particles[i];
            p.state.active = false;
            p.state.lifetime_remaining_ms = 0;
            p.visibility = Visibility::Hidden;
            arena.particles[i] = p;
            arena.pool.available_entities.push(i as u32);
            arena.pool.active_count = arena.pool.active_count - 1;
            proof {
                lemma_retirement_keeps_wf(&before, arena, i as int);
                assert(arena.pool.available_entities@ =~= old(arena).pool.available_entities@
                    + expired_ids(old(arena).particles@, i + 1));
            }
        }
        i = i + 1;
    }
}

/// Largest speed of a particle in world units per second.
pub const MAX_SPEED: Fixed = 500_000_000;

/// The particle after its position has followed its velocity for
/// `delta_seconds`; an inactive particle is unchanged.
pub open spec fn moved(p: ParticleBundle, delta_seconds: Fixed) -> ParticleBundle {
    if p.state.active {
        ParticleBundle {
            transform: Transform {
                translation: p.transform.translation.plus(p.motion.velocity.scaled(delta_seconds)),
                ..p.transform
            },
            ..p
        }
    } else {
        p
    }
}

/// Moves every active particle along its velocity: `position += velocity *
/// delta_seconds`. The velocity itself is not changed here; the
/// acceleration of this tick reaches the position only on the next one.
pub fn integrate_particle_motion(arena: &mut ParticleArena, delta_seconds: Fixed)
    ensures
        final(arena).pool == old(arena).pool,
        final(arena).particles@.len() == old(arena).particles@.len(),
        forall|i: int|
            0 <= i < old(arena).particles@.len() ==> #[trigger] final(arena).particles@[i]
                == moved(old(arena).particles@[i], delta_seconds),
        old(arena).wf() ==> final(arena).wf(),
{
    let count: usize = arena.particles.len();
    let mut i: usize = 0;
    while i < count
        invariant
            i <= count,
            count == arena.particles@.len(),
            count == old(arena).particles@.len(),
            arena.pool == old(arena).pool,
            forall|j: int|
                0 <= j < i ==> #[trigger] arena.particles@[j] == moved(
                    old(arena).particles@[j],
                    delta_seconds,
                ),
            forall|j: int| i <= j < count ==> arena.particles@[j] == old(arena).particles@[j],
        decreases count - i,
    {
        if arena.particles[i].state.active {
            let mut p = arena.particles[i];
            p.transform.translation = p.transform.translation.plus(
                p.motion.velocity.scaled(delta_seconds),
            );
            arena.particles[i] = p;
        }
        i = i + 1;
    }
    proof {
        if old(arena).wf() {
            lemma_same_occupancy_keeps_wf(old(arena), arena);
        }
    }
}

/// The velocity limited to [`MAX_SPEED`]: a faster velocity is rescaled to
/// that speed in the same direction.
pub open spec fn speed_limited(velocity: Vec2) -> Vec2 {
    if velocity.length() > MAX_SPEED {
        velocity.normalized().scaled(MAX_SPEED)
    } else {
        velocity
    }
}

/// The velocity after one tick: acceleration applied for `delta_seconds`,
/// then damped by `drag_sample`, then limited to the maximum speed.
pub open spec fn next_velocity(motion: ParticleMotion, delta_seconds: Fixed, drag_sample: Fixed) -> Vec2 {
    speed_limited(
        motion.velocity.plus(motion.acceleration.scaled(delta_seconds)).scaled(drag_sample),
    )
}

/// The exponent to which the host raises a particle's drag for a tick of
/// `delta_seconds`: the number of sixtieths of a second in the tick.
pub open spec fn drag_exponent_spec(delta_seconds: Fixed) -> Fixed {
    fx_mul(delta_seconds, 60_000_000)
}

/// The exponent to which the host raises a particle's drag for a tick of
/// `delta_seconds`, so that the damping does not depend on the frame rate.
#[verifier::when_used_as_spec(drag_exponent_spec)]
pub fn drag_exponent(delta_seconds: Fixed) -> (r: Fixed)
    ensures
        r == drag_exponent_spec(delta_seconds),
{
    fx_mul(delta_seconds, 60_000_000)
}

/// The drag sample of slot `i`: the host's value, or one (no damping) where
/// the host supplied none.
pub open spec fn drag_sample_at(drag_samples: Seq<Fixed>, i: int) -> Fixed {
    if 0 <= i < drag_samples.len() {
        drag_samples[i]
    } else {
        ONE
    }
}

/// The particle after the velocity step of a tick: the new velocity is
/// [`next_velocity`] and the acceleration is cleared; an inactive particle
/// is unchanged.
pub open spec fn velocity_stepped(
    p: ParticleBundle,
    delta_seconds: Fixed,
    drag_sample: Fixed,
) -> ParticleBundle {
    if p.state.active {
        ParticleBundle {
            motion: ParticleMotion {
                velocity: next_velocity(p.motion, delta_seconds, drag_sample),
                acceleration: Vec2::zero(),
                ..p.motion
            },
            ..p
        }
    } else {
        p
    }
}

/// Limits a velocity to the maximum speed.
#[verifier::when_used_as_spec(speed_limited)]
pub fn limit_speed(velocity: Vec2) -> (r: Vec2)
    ensures
        r == speed_limited(velocity),
{
    if velocity.length() > MAX_SPEED {
        velocity.normalized().scaled(MAX_SPEED)
    } else {
        velocity
    }
}

/// Applies acceleration and drag to the velocity of every active particle.
///
/// For each active particle: `velocity += acceleration * delta_seconds`,
/// then the velocity is multiplied by the particle's drag sample, then it
/// is limited to the maximum speed, then the acceleration is reset to zero.
///
/// The drag sample of slot `i` is `drag_samples[i]`: the particle's drag
/// raised to [`drag_exponent`], a fractional power that the host evaluates.
/// A slot without a sample is not damped.
pub fn apply_velocity_changes(
    arena: &mut ParticleArena,
    delta_seconds: Fixed,
    drag_samples: &Vec<Fixed>,
)
    ensures
        final(arena).pool == old(arena).pool,
        final(arena).particles@.len() == old(arena).particles@.len(),
        forall|i: int|
            0 <= i < old(arena).particles@.len() ==> #[trigger] final(arena).particles@[i]
                == velocity_stepped(
                old(arena).particles@[i],
                delta_seconds,
                drag_sample_at(drag_samples@, i),
            ),
        old(arena).wf() ==> final(arena).wf(),
{
    let count: usize = arena.particles.len();
    let mut i: usize = 0;
    while i < count
        invariant
            i <= count,
            count == arena.particles@.len(),
            count == old(arena).particles@.len(),
            arena.pool == old(arena).pool,
            forall|j: int|
                0 <= j < i ==> #[trigger] arena.particles@[j] == velocity_stepped(
                    old(arena).particles@[j],
                    delta_seconds,
                    drag_sample_at(drag_samples@, j),
                ),
            forall|j: int| i <= j < count ==> arena.particles@[j] == old(arena).particles@[j],
        decreases count - i,
    {
        if arena.particles[i].state.active {
            let sample = if i < drag_samples.len() { drag_samples[i] } else { ONE };
            let mut p = arena.particles[i];
            let pushed = p.motion.velocity.plus(p.motion.acceleration.scaled(delta_seconds));
            p.motion.velocity = limit_speed(pushed.scaled(sample));
            p.motion.acceleration = Vec2::zero();
            arena.particles[i] = p;
        }
        i = i + 1;
    }
    proof {
        if old(arena).wf() {
            lemma_same_occupancy_keeps_wf(old(arena), arena);
        }
    }
}

/// The attraction of a swarming particle at `distance` from its target:
/// `300 / (distance + 100) * 50`.
pub open spec fn swarm_attraction(distance: Fixed) -> Fixed {
    fx_mul(fx_div(300_000_000, fx_add(distance, 100_000_000)), 50_000_000)
}

/// The point that a behavior pulls toward: its target, or the origin.
pub open spec fn behavior_target(behavior: ParticleBehavior) -> Vec2 {
    match behavior.target_position {
        Some(target) => target,
        None => Vec2::zero(),
    }
}

/// The acceleration that a behavior gives a particle at `position`.
///
/// `r1` and `r2` are unit samples; only drift and float use them.
///
/// - Drift: a random acceleration, each component uniform in a span of 30
///   around zero.
/// - Swarm: toward the target with magnitude [`swarm_attraction`]; zero
///   within one unit of it.
/// - Orbit: toward the target with magnitude 40 plus a quarter turn
///   off that direction with magnitude 60; zero within ten units.
/// - Disperse: 50 upward plus 20 outward from the origin; the outward part
///   vanishes within one unit of the origin.
/// - Float: a random jitter in a span of 10 horizontally and 5 upward plus
///   a jitter in a span of 5 vertically.
///
/// Every result is scaled by the behavior's strength.
pub open spec fn behavior_acceleration(
    behavior: ParticleBehavior,
    position: Vec2,
    r1: Fixed,
    r2: Fixed,
) -> Vec2 {
    let strength = behavior.behavior_strength;
    let to_target = behavior_target(behavior).minus(position);
    let distance = to_target.length();
    match behavior.behavior_type {
        ParticleBehaviorType::Drift => (Vec2 {
            x: centered(r1, 30_000_000),
            y: centered(r2, 30_000_000),
        }).scaled(strength),
        ParticleBehaviorType::Swarm => if distance > ONE {
            to_target.divided(distance).scaled(swarm_attraction(distance)).scaled(strength)
        } else {
            Vec2::zero()
        },
        ParticleBehaviorType::Orbit => if distance > 10_000_000 {
            to_target.divided(distance).scaled(40_000_000).plus(
                to_target.perpendicular().normalized().scaled(60_000_000),
            ).scaled(strength)
        } else {
            Vec2::zero()
        },
        ParticleBehaviorType::Disperse => (Vec2 { x: 0, y: 50_000_000 }).plus(
            if position.length() > ONE {
                position.normalized().scaled(20_000_000)
            } else {
                Vec2::zero()
            },
        ).scaled(strength),
        ParticleBehaviorType::Float => (Vec2 {
            x: centered(r1, 10_000_000),
            y: fx_add(5_000_000, centered(r2, 5_000_000)),
        }).scaled(strength),
    }
}

/// The acceleration that a behavior gives a particle at `position`, for the
/// unit samples `r1` and `r2`.
#[verifier::when_used_as_spec(behavior_acceleration)]
pub fn behavior_force(behavior: ParticleBehavior, position: Vec2, r1: Fixed, r2: Fixed) -> (r:
    Vec2)
    ensures
        r == behavior_acceleration(behavior, position, r1, r2),
{
    let strength = behavior.behavior_strength;
    let target = match behavior.target_position {
        Some(target) => target,
        None => Vec2::zero(),
    };
    let to_target = target.minus(position);
    match behavior.behavior_type {
        ParticleBehaviorType::Drift => {
            Vec2::new(centered(r1, 30_000_000), centered(r2, 30_000_000)).scaled(strength)
        },
        ParticleBehaviorType::Swarm => {
            let distance = to_target.length();
            if distance > ONE {
                let attraction = fx_mul(
                    fx_div(300_000_000, fx_add(distance, 100_000_000)),
                    50_000_000,
                );
                to_target.divided(distance).scaled(attraction).scaled(strength)
            } else {
                Vec2::zero()
            }
        },
        ParticleBehaviorType::Orbit => {
            let distance = to_target.length();
            if distance > 10_000_000 {
                let centripetal = to_target.divided(distance).scaled(40_000_000);
                let tangent = to_target.perpendicular().normalized().scaled(60_000_000);
                centripetal.plus(tangent).scaled(strength)
            } else {
                Vec2::zero()
            }
        },
        ParticleBehaviorType::Disperse => {
            let upward = Vec2::new(0, 50_000_000);
            let outward = if position.length() > ONE {
                position.normalized().scaled(20_000_000)
            } else {
                Vec2::zero()
            };
            upward.plus(outward).scaled(strength)
        },
        ParticleBehaviorType::Float => {
            Vec2::new(centered(r1, 10_000_000), fx_add(5_000_000, centered(r2, 5_000_000))).scaled(
                strength,
            )
        },
    }
}

/// The particle with its acceleration replaced by the behavior force for
/// the unit samples `r1` and `r2`; an inactive particle is unchanged.
pub open spec fn behaved(p: ParticleBundle, r1: Fixed, r2: Fixed) -> ParticleBundle {
    if p.state.active {
        ParticleBundle {
            motion: ParticleMotion {
                acceleration: behavior_acceleration(p.behavior, p.transform.translation, r1, r2),
                ..p.motion
            },
            ..p
        }
    } else {
        p
    }
}

/// Whether `after` is `before` with the behavior force applied for some
/// pair of unit samples.
pub open spec fn is_behaved(before: ParticleBundle, after: ParticleBundle) -> bool {
    exists|r1: Fixed, r2: Fixed|
        is_unit_sample(r1) && is_unit_sample(r2) && after == #[trigger] behaved(before, r1, r2)
}

/// Writes the behavior force into the acceleration of every active
/// particle, replacing what was there.
///
/// Drift and float draw two fresh random samples per particle; the other
/// behaviors are fully determined by the particle's state, so for them the
/// outcome does not depend on the samples at all.
pub fn apply_particle_behavior(arena: &mut ParticleArena)
    ensures
        final(arena).pool == old(arena).pool,
        final(arena).particles@.len() == old(arena).particles@.len(),
        forall|i: int|
            0 <= i < old(arena).particles@.len() ==> is_behaved(
                old(arena).particles@[i],
                #[trigger] final(arena).particles@[i],
            ),
        old(arena).wf() ==> final(arena).wf(),
{
    let count: usize = arena.particles.len();
    let mut i: usize = 0;
    while i < count
        invariant
            i <= count,
            count == arena.particles@.len(),
            count == old(arena).particles@.len(),
            arena.pool == old(arena).pool,
            forall|j: int|
                0 <= j < i ==> is_behaved(
                    old(arena).particles@[j],
                    #[trigger] arena.particles@[j],
                ),
            forall|j: int| i <= j < count ==> arena.particles@[j] == old(arena).particles@[j],
        decreases count - i,
    {
        if arena.particles[i].state.active {
            let mut p = arena.particles[i];
            let uses_chance = match p.behavior.behavior_type {
                ParticleBehaviorType::Drift | ParticleBehaviorType::Float => true,
                _ => false,
            };
            let r1 = if uses_chance { random_unit() } else { 0 };
            let r2 = if uses_chance { random_unit() } else { 0 };
            p.motion.acceleration = behavior_force(p.behavior, p.transform.translation, r1, r2);
            arena.particles[i] = p;
            assert(arena.particles@[i as int] == behaved(old(arena).particles@[i as int], r1, r2));
        } else {
            assert(arena.particles@[i as int] == behaved(old(arena).particles@[i as int], 0, 0));
        }
        i = i + 1;
    }
    proof {
        if old(arena).wf() {
            assert forall|j: int| 0 <= j < count implies (#[trigger] arena.particles@[j]).particle
                == old(arena).particles@[j].particle && arena.particles@[j].state.active == old(
                arena,
            ).particles@[j].state.active by {
                assert(is_behaved(old(arena).particles@[j], arena.particles@[j]));
            }
            lemma_same_occupancy_keeps_wf(old(arena), arena);
        }
    }
}

/// Base strength of the turbulence.
pub const BASE_TURBULENCE_STRENGTH: Fixed = 15_000_000;

/// How fast the turbulence noise evolves in time.
pub const TURBULENCE_TIME_SCALE: Fixed = 500_000;

/// Six numbers that belong to the six sine waves of the turbulence: three
/// for the horizontal component and three for the vertical one. The same
/// shape carries the arguments of the sines and their values.
#[derive(Clone, Copy, Debug, PartialEq, Eq, Structural)]
pub struct Harmonics {
    /// First horizontal wave (weight 0.5).
    pub x0: Fixed,
    /// Second horizontal wave (weight 0.3).
    pub x1: Fixed,
    /// Third horizontal wave (weight 0.2).
    pub x2: Fixed,
    /// First vertical wave (weight 0.5).
    pub y0: Fixed,
    /// Second vertical wave (weight 0.3).
    pub y1: Fixed,
    /// Third vertical wave (weight 0.2).
    pub y2: Fixed,
}

/// The turbulence multiplier of an act: lowest in the last act, highest in
/// the third.
pub open spec fn act_turbulence_multiplier_spec(act: Act) -> Fixed {
    match act {
        Act::Emergence => 500_000,
        Act::Accumulation => 600_000,
        Act::Crescendo => 1_000_000,
        Act::Release => 800_000,
        Act::Transcendence => 300_000,
    }
}

/// The turbulence multiplier of an act.
#[verifier::when_used_as_spec(act_turbulence_multiplier_spec)]
pub fn act_turbulence_multiplier(act: Act) -> (r: Fixed)
    ensures
        r == act_turbulence_multiplier_spec(act),
{
    match act {
        Act::Emergence => 500_000,
        Act::Accumulation => 600_000,
        Act::Crescendo => 1_000_000,
        Act::Release => 800_000,
        Act::Transcendence => 300_000,
    }
}

/// The arguments of the six turbulence sines for a particle at
/// `elapsed_seconds`, with `t = elapsed * 0.5 + seed`:
/// `1.3 t + 0.01 x`, `2.7 t + 0.02 y`, `0.7 t + 0.03 x + 0.02 y` for the
/// horizontal component and `1.7 t + 0.01 y`, `2.3 t + 0.02 x`,
/// `0.9 t + 0.03 y + 0.02 x` for the vertical one.
pub open spec fn turbulence_arguments_spec(p: ParticleBundle, elapsed_seconds: Fixed) -> Harmonics {
    let t = fx_add(fx_mul(elapsed_seconds, TURBULENCE_TIME_SCALE), p.motion.turbulence_seed);
    let x = p.transform.translation.x;
    let y = p.transform.translation.y;
    Harmonics {
        x0: fx_add(fx_mul(t, 1_300_000), fx_mul(x, 10_000)),
        x1: fx_add(fx_mul(t, 2_700_000), fx_mul(y, 20_000)),
        x2: fx_add(fx_add(fx_mul(t, 700_000), fx_mul(x, 30_000)), fx_mul(y, 20_000)),
        y0: fx_add(fx_mul(t, 1_700_000), fx_mul(y, 10_000)),
        y1: fx_add(fx_mul(t, 2_300_000), fx_mul(x, 20_000)),
        y2: fx_add(fx_add(fx_mul(t, 900_000), fx_mul(y, 30_000)), fx_mul(x, 20_000)),
    }
}

/// The arguments at which the host evaluates the six turbulence sines of a
/// particle.
#[verifier::when_used_as_spec(turbulence_arguments_spec)]
pub fn turbulence_arguments(p: ParticleBundle, elapsed_seconds: Fixed) -> (r: Harmonics)
    ensures
        r == turbulence_arguments_spec(p, elapsed_seconds),
{
    let t = fx_add(fx_mul(elapsed_seconds, TURBULENCE_TIME_SCALE), p.motion.turbulence_seed);
    let x = p.transform.translation.x;
    let y = p.transform.translation.y;
    Harmonics {
        x0: fx_add(fx_mul(t, 1_300_000), fx_mul(x, 10_000)),
        x1: fx_add(fx_mul(t, 2_700_000), fx_mul(y, 20_000)),
        x2: fx_add(fx_add(fx_mul(t, 700_000), fx_mul(x, 30_000)), fx_mul(y, 20_000)),
        y0: fx_add(fx_mul(t, 1_700_000), fx_mul(y, 10_000)),
        y1: fx_add(fx_mul(t, 2_300_000), fx_mul(x, 20_000)),
        y2: fx_add(fx_add(fx_mul(t, 900_000), fx_mul(y, 30_000)), fx_mul(x, 20_000)),
    }
}

/// The noise vector of six sine values: the waves of each component
/// weighted 0.5, 0.3 and 0.2.
pub open spec fn turbulence_noise(sines: Harmonics) -> Vec2 {
    Vec2 {
        x: fx_add(
            fx_add(fx_mul(sines.x0, 500_000), fx_mul(sines.x1, 300_000)),
            fx_mul(sines.x2, 200_000),
        ),
        y: fx_add(
            fx_add(fx_mul(sines.y0, 500_000), fx_mul(sines.y1, 300_000)),
            fx_mul(sines.y2, 200_000),
        ),
    }
}

/// The velocity change that turbulence causes over `delta_seconds`: the
/// noise times the base strength times the act's multiplier times the
/// duration.
pub open spec fn turbulence_impulse(sines: Harmonics, act: Act, delta_seconds: Fixed) -> Vec2 {
    turbulence_noise(sines).scaled(
        fx_mul(BASE_TURBULENCE_STRENGTH, act_turbulence_multiplier(act)),
    ).scaled(delta_seconds)
}

/// The particle with the turbulence impulse added to its velocity. An
/// inactive particle, and one for which the host supplied no sines, is
/// unchanged.
pub open spec fn perturbed(
    p: ParticleBundle,
    sines: Option<Harmonics>,
    act: Act,
    delta_seconds: Fixed,
) -> ParticleBundle {
    match sines {
        Some(sines) if p.state.active => ParticleBundle {
            motion: ParticleMotion {
                velocity: p.motion.velocity.plus(turbulence_impulse(sines, act, delta_seconds)),
                ..p.motion
            },
            ..p
        },
        _ => p,
    }
}

/// The sines of slot `i`, where the host supplied them.
pub open spec fn sines_at(sines: Seq<Harmonics>, i: int) -> Option<Harmonics> {
    if 0 <= i < sines.len() {
        Some(sines[i])
    } else {
        None
    }
}

/// The arguments of the turbulence sines of every slot, by id.
pub fn turbulence_arguments_of(arena: &ParticleArena, elapsed_seconds: Fixed) -> (r: Vec<
    Harmonics,
>)
    ensures
        r@.len() == arena.particles@.len(),
        forall|i: int|
            0 <= i < r@.len() ==> #[trigger] r@[i] == turbulence_arguments(
                arena.particles@[i],
                elapsed_seconds,
            ),
{
    let mut out: Vec<Harmonics> = Vec::new();
    let count: usize = arena.particles.len();
    let mut i: usize = 0;
    while i < count
        invariant
            i <= count,
            count == arena.particles@.len(),
            out@.len() == i,
            forall|j: int|
                0 <= j < i ==> #[trigger] out@[j] == turbulence_arguments(
                    arena.particles@[j],
                    elapsed_seconds,
                ),
        decreases count - i,
    {
        out.push(turbulence_arguments(arena.particles[i], elapsed_seconds));
        i = i + 1;
    }
    out
}

/// Adds turbulence to the velocity of every active particle.
///
/// `sines[i]` holds the sines of the six arguments that
/// [`turbulence_arguments`] gives for slot `i`; the host evaluates them.
/// The impulse is the weighted noise times the base strength, the
/// multiplier of the current act and the tick duration, and it goes into
/// the velocity, not the acceleration.
pub fn apply_turbulence(
    arena: &mut ParticleArena,
    current_act: Act,
    sines: &Vec<Harmonics>,
    delta_seconds: Fixed,
)
    ensures
        final(arena).pool == old(arena).pool,
        final(arena).particles@.len() == old(arena).particles@.len(),
        forall|i: int|
            0 <= i < old(arena).particles@.len() ==> #[trigger] final(arena).particles@[i]
                == perturbed(
                old(arena).particles@[i],
                sines_at(sines@, i),
                current_act,
                delta_seconds,
            ),
        old(arena).wf() ==> final(arena).wf(),
{
    let strength = fx_mul(BASE_TURBULENCE_STRENGTH, act_turbulence_multiplier(current_act));
    let count: usize = arena.particles.len();
    let mut i: usize = 0;
    while i < count
        invariant
            i <= count,
            count == arena.particles@.len(),
            count == old(arena).particles@.len(),
            strength == fx_mul(BASE_TURBULENCE_STRENGTH, act_turbulence_multiplier(current_act)),
            arena.pool == old(arena).pool,
            forall|j: int|
                0 <= j < i ==> #[trigger] arena.particles@[j] == perturbed(
                    old(arena).particles@[j],
                    sines_at(sines@, j),
                    current_act,
                    delta_seconds,
                ),
            forall|j: int| i <= j < count ==> arena.particles@[j] == old(arena).particles@[j],
        decreases count - i,
    {
        if arena.particles[i].state.active && i < sines.len() {
            let s = sines[i];
            let noise = Vec2::new(
                fx_add(fx_add(fx_mul(s.x0, 500_000), fx_mul(s.x1, 300_000)), fx_mul(s.x2, 200_000)),
                fx_add(fx_add(fx_mul(s.y0, 500_000), fx_mul(s.y1, 300_000)), fx_mul(s.y2, 200_000)),
            );
            let mut p = arena.particles[i];
            p.motion.velocity = p.motion.velocity.plus(noise.scaled(strength).scaled(delta_seconds));
            arena.particles[i] = p;
        }
        i = i + 1;
    }
    proof {
        if old(arena).wf() {
            lemma_same_occupancy_keeps_wf(old(arena), arena);
        }
    }
}

/// The share of its lifetime that a particle still has, from 0 to 1; one
/// for a particle that was given no lifetime.
pub open spec fn lifetime_fraction(state: ParticleState) -> Fixed {
    if state.lifetime_total_ms > 0 {
        fx_clamp(fx_div(state.lifetime_remaining_ms, state.lifetime_total_ms), 0, ONE)
    } else {
        ONE
    }
}

/// The fade of a particle: one while more than a fifth of its lifetime is
/// left, then falling linearly to zero.
pub open spec fn fade_factor(state: ParticleState) -> Fixed {
    if lifetime_fraction(state) < 200_000 {
        fx_div(lifetime_fraction(state), 200_000)
    } else {
        ONE
    }
}

/// The particle with its render attributes brought up to date: the sprite
/// shows the current colour at the faded opacity, its side is the base size
/// times the scale times the pulse modifier, and the transform's scale is
/// one. An inactive particle is unchanged.
pub open spec fn rendered(p: ParticleBundle) -> ParticleBundle {
    if p.state.active {
        ParticleBundle {
            sprite: Sprite {
                color: p.visual.current_color.with_alpha(
                    fx_mul(p.visual.opacity, fade_factor(p.state)),
                ),
                custom_size: Some(
                    fx_mul(
                        fx_mul(PEA_BASE_SIZE, p.visual.scale),
                        p.pulse_responder.current_scale_modifier,
                    ),
                ),
            },
            transform: Transform { scale: ONE, ..p.transform },
            ..p
        }
    } else {
        p
    }
}

/// Copies the visual state of every active particle into what the renderer
/// reads. Particles fade out over the last fifth of their lifetime.
pub fn sync_sprite_visuals(arena: &mut ParticleArena)
    ensures
        final(arena).pool == old(arena).pool,
        final(arena).particles@.len() == old(arena).particles@.len(),
        forall|i: int|
            0 <= i < old(arena).particles@.len() ==> #[trigger] final(arena).particles@[i]
                == rendered(old(arena).particles@[i]),
        old(arena).wf() ==> final(arena).wf(),
{
    let count: usize = arena.particles.len();
    let mut i: usize = 0;
    while i < count
        invariant
            i <= count,
            count == arena.particles@.len(),
            count == old(arena).particles@.len(),
            arena.pool == old(arena).pool,
            forall|j: int|
                0 <= j < i ==> #[trigger] arena.particles@[j] == rendered(
                    old(arena).particles@[j],
                ),
            forall|j: int| i <= j < count ==> arena.particles@[j] == old(arena).particles@[j],
        decreases count - i,
    {
        if arena.particles[i].state.active {
            let mut p = arena.particles[i];
            let fraction = if p.state.lifetime_total_ms > 0 {
                fx_clamp(fx_div(p.state.lifetime_remaining_ms, p.state.lifetime_total_ms), 0, ONE)
            } else {
                ONE
            };
            let fade = if fraction < 200_000 { fx_div(fraction, 200_000) } else { ONE };
            p.sprite.color = p.visual.current_color.with_alpha(fx_mul(p.visual.opacity, fade));
            p.sprite.custom_size = Some(
                fx_mul(fx_mul(PEA_BASE_SIZE, p.visual.scale), p.pulse_responder.current_scale_modifier),
            );
            p.transform.scale = ONE;
            arena.particles[i] = p;
        }
        i = i + 1;
    }
    proof {
        if old(arena).wf() {
            lemma_same_occupancy_keeps_wf(old(arena), arena);
        }
    }
}

/// The colour with its saturation scaled by `multiplier`, which is clamped
/// to `[0, 2]` first. Below one each channel moves toward the grey of the
/// same luminance (weights 0.299, 0.587, 0.114); above one it moves away
/// from it. Alpha is kept.
pub open spec fn apply_saturation_multiplier_spec(color: Srgba, multiplier: Fixed) -> Srgba {
    let gray = fx_add(
        fx_add(fx_mul(color.red, 299_000), fx_mul(color.green, 587_000)),
        fx_mul(color.blue, 114_000),
    );
    let adjusted = fx_clamp(multiplier, 0, 2_000_000);
    if adjusted >= ONE {
        let factor = fx_sub(adjusted, ONE);
        Srgba {
            red: fx_add(color.red, fx_mul(fx_sub(color.red, gray), factor)),
            green: fx_add(color.green, fx_mul(fx_sub(color.green, gray), factor)),
            blue: fx_add(color.blue, fx_mul(fx_sub(color.blue, gray), factor)),
            alpha: color.alpha,
        }
    } else {
        Srgba {
            red: fx_add(gray, fx_mul(fx_sub(color.red, gray), adjusted)),
            green: fx_add(gray, fx_mul(fx_sub(color.green, gray), adjusted)),
            blue: fx_add(gray, fx_mul(fx_sub(color.blue, gray), adjusted)),
            alpha: color.alpha,
        }
    }
}

/// Scales the saturation of a colour by a multiplier clamped to `[0, 2]`.
#[verifier::when_used_as_spec(apply_saturation_multiplier_spec)]
pub fn apply_saturation_multiplier(color: Srgba, multiplier: Fixed) -> (r: Srgba)
    ensures
        r == apply_saturation_multiplier_spec(color, multiplier),
{
    let gray = fx_add(
        fx_add(fx_mul(color.red, 299_000), fx_mul(color.green, 587_000)),
        fx_mul(color.blue, 114_000),
    );
    let adjusted = fx_clamp(multiplier, 0, 2_000_000);
    if adjusted >= ONE {
        let factor = fx_sub(adjusted, ONE);
        Srgba {
            red: fx_add(color.red, fx_mul(fx_sub(color.red, gray), factor)),
            green: fx_add(color.green, fx_mul(fx_sub(color.green, gray), factor)),
            blue: fx_add(color.blue, fx_mul(fx_sub(color.blue, gray), factor)),
            alpha: color.alpha,
        }
    } else {
        Srgba {
            red: fx_add(gray, fx_mul(fx_sub(color.red, gray), adjusted)),
            green: fx_add(gray, fx_mul(fx_sub(color.green, gray), adjusted)),
            blue: fx_add(gray, fx_mul(fx_sub(color.blue, gray), adjusted)),
            alpha: color.alpha,
        }
    }
}

/// The palette entry that a spawn source picks for the unit sample `r`.
///
/// Pointer spawns take the accents (spark below 0.4, deep below 0.7, hope
/// above); beat spawns take the primary midpoint below 0.5, the spark
/// accent below 0.8 and the deep accent above; ambient spawns take the
/// secondary colours (cool below 0.4, warm below 0.7, ethereal above).
pub open spec fn palette_pick(palette: ColorPalette, source: SpawnSource, r: Fixed) -> Srgba {
    match source {
        SpawnSource::Mouse => if r < 400_000 {
            palette.accent_spark
        } else if r < 700_000 {
            palette.accent_deep
        } else {
            palette.accent_hope
        },
        SpawnSource::Beat => if r < 500_000 {
            palette.primary_midpoint
        } else if r < 800_000 {
            palette.accent_spark
        } else {
            palette.accent_deep
        },
        SpawnSource::Automatic => if r < 400_000 {
            palette.secondary_cool
        } else if r < 700_000 {
            palette.secondary_warm
        } else {
            palette.secondary_ethereal
        },
    }
}

/// The colour of a new particle: the palette pick for `r` with the act's
/// saturation multiplier applied.
pub open spec fn spawn_color_spec(
    palette: ColorPalette,
    interpolated: InterpolatedActValues,
    source: SpawnSource,
    r: Fixed,
) -> Srgba {
    apply_saturation_multiplier(palette_pick(palette, source, r), interpolated.saturation_multiplier)
}

/// The colour of a new particle for the unit sample `r`.
#[verifier::when_used_as_spec(spawn_color_spec)]
pub fn spawn_color(
    palette: ColorPalette,
    interpolated: InterpolatedActValues,
    source: SpawnSource,
    r: Fixed,
) -> (color: Srgba)
    ensures
        color == spawn_color_spec(palette, interpolated, source, r),
{
    let base = match source {
        SpawnSource::Mouse => if r < 400_000 {
            palette.accent_spark
        } else if r < 700_000 {
            palette.accent_deep
        } else {
            palette.accent_hope
        },
        SpawnSource::Beat => if r < 500_000 {
            palette.primary_midpoint
        } else if r < 800_000 {
            palette.accent_spark
        } else {
            palette.accent_deep
        },
        SpawnSource::Automatic => if r < 400_000 {
            palette.secondary_cool
        } else if r < 700_000 {
            palette.secondary_warm
        } else {
            palette.secondary_ethereal
        },
    };
    apply_saturation_multiplier(base, interpolated.saturation_multiplier)
}

/// Picks the colour of a new particle at random from the part of the
/// palette that belongs to its source.
pub fn select_spawn_color(
    palette: &ColorPalette,
    interpolated: &InterpolatedActValues,
    source: SpawnSource,
) -> (color: Srgba)
    ensures
        exists|r: Fixed|
            is_unit_sample(r) && color == #[trigger] spawn_color(
                *palette,
                *interpolated,
                source,
                r,
            ),
{
    let r = random_unit();
    spawn_color(*palette, *interpolated, source, r)
}

/// Whether the interaction mode in force is the painting mode.
pub fn interaction_mode_is_paint(mode: &CurrentInteractionMode) -> (r: bool)
    ensures
        r == (mode.mode == InteractionMode::Paint),
{
    mode.mode == InteractionMode::Paint
}

/// Lowest pointer spawn rate in particles per second.
pub const MOUSE_SPAWN_RATE_MIN: Fixed = 8_000_000;

/// Highest pointer spawn rate in particles per second without holding.
pub const MOUSE_SPAWN_RATE_MAX: Fixed = 15_000_000;

/// Factor on the spawn rate while the pointer is held and moving.
pub const HELD_SPAWN_RATE_MULTIPLIER: Fixed = 8_000_000;

/// Highest spawn rate while holding, in particles per second.
pub const HELD_SPAWN_RATE_MAX: Fixed = 120_000_000;

/// The pointer speed as a share of 500 units per second, clamped to
/// `[0, 1]`.
pub open spec fn pointer_speed_factor(speed: Fixed) -> Fixed {
    fx_clamp(fx_div(speed, 500_000_000), 0, ONE)
}

/// The pointer spawn rate in particles per second.
///
/// The base rate rises linearly with the speed factor from 8 to 15. While
/// the pointer is held and faster than 10 units per second the rate is the
/// base rate times 8 times `0.5 + speed factor`, capped at 120.
pub open spec fn mouse_spawn_rate_spec(speed: Fixed, is_holding: bool) -> Fixed {
    let factor = pointer_speed_factor(speed);
    let base = fx_add(
        MOUSE_SPAWN_RATE_MIN,
        fx_mul(fx_sub(MOUSE_SPAWN_RATE_MAX, MOUSE_SPAWN_RATE_MIN), factor),
    );
    if is_holding && speed > 10_000_000 {
        fx_min(
            fx_mul(fx_mul(base, HELD_SPAWN_RATE_MULTIPLIER), fx_add(HALF, factor)),
            HELD_SPAWN_RATE_MAX,
        )
    } else {
        base
    }
}

/// The pointer spawn rate in particles per second; always between 8 and
/// 120.
#[verifier::when_used_as_spec(mouse_spawn_rate_spec)]
pub fn mouse_spawn_rate(speed: Fixed, is_holding: bool) -> (rate: Fixed)
    ensures
        rate == mouse_spawn_rate_spec(speed, is_holding),
        MOUSE_SPAWN_RATE_MIN <= rate <= HELD_SPAWN_RATE_MAX,
{
    let factor = fx_clamp(fx_div(speed, 500_000_000), 0, ONE);
    let base = fx_add(
        MOUSE_SPAWN_RATE_MIN,
        fx_mul(fx_sub(MOUSE_SPAWN_RATE_MAX, MOUSE_SPAWN_RATE_MIN), factor),
    );
    proof {
        lemma_mul_by_fraction(fx_sub(MOUSE_SPAWN_RATE_MAX, MOUSE_SPAWN_RATE_MIN), factor);
    }
    assert(8_000_000 <= base <= 15_000_000);
    if is_holding && speed > 10_000_000 {
        let widened = fx_mul(base, HELD_SPAWN_RATE_MULTIPLIER);
        assert(widened == 8 * base);
        let boost = fx_add(HALF, factor);
        assert(32_000_000_000_000 <= widened * boost) by (nonlinear_arith)
            requires
                64_000_000 <= widened,
                500_000 <= boost,
        ;
        assert(widened * boost <= 180_000_000_000_000) by (nonlinear_arith)
            requires
                0 <= widened <= 120_000_000,
                0 <= boost <= 1_500_000,
        ;
        fx_min(fx_mul(widened, boost), HELD_SPAWN_RATE_MAX)
    } else {
        base
    }
}

/// How many whole spawn intervals fit into the accumulated time.
pub open spec fn whole_intervals(accumulated: Fixed, interval: Fixed) -> nat
    decreases accumulated,
{
    if interval > 0 && accumulated >= interval {
        1 + whole_intervals((accumulated - interval) as Fixed, interval)
    } else {
        0
    }
}

/// The accumulated time that is left once every whole interval is taken
/// out.
pub open spec fn interval_remainder(accumulated: Fixed, interval: Fixed) -> Fixed
    decreases accumulated,
{
    if interval > 0 && accumulated >= interval {
        interval_remainder((accumulated - interval) as Fixed, interval)
    } else {
        accumulated
    }
}

/// The accumulator loses no time: the whole intervals taken out and the
/// remainder carried over add up to what had accumulated, and the
/// remainder is less than one interval.
pub proof fn lemma_accumulator_conserves_time(accumulated: Fixed, interval: Fixed)
    requires
        0 <= accumulated,
        0 < interval,
    ensures
        whole_intervals(accumulated, interval) * interval + interval_remainder(
            accumulated,
            interval,
        ) == accumulated,
        0 <= interval_remainder(accumulated, interval) < interval,
    decreases accumulated,
{
    if accumulated >= interval {
        let rest = (accumulated - interval) as Fixed;
        let taken = whole_intervals(rest, interval);
        lemma_accumulator_conserves_time(rest, interval);
        assert(whole_intervals(accumulated, interval) == 1 + taken);
        assert((1 + taken) * interval == interval + taken * interval) by (nonlinear_arith);
    } else {
        assert(whole_intervals(accumulated, interval) == 0);
        assert(0 * interval == 0) by (nonlinear_arith);
    }
}

/// The request of one pointer spawn for the unit samples `rx`, `ry`
/// (velocity scatter) and `rc` (colour).
///
/// The particle appears at the pointer with three tenths of the pointer's
/// velocity plus a scatter of up to 25 units per second either way on each
/// axis, lives 1.2 times the base lifetime and is tagged as a pointer
/// spawn.
pub open spec fn mouse_spawn_request_spec(
    mouse: MouseState,
    palette: ColorPalette,
    interpolated: InterpolatedActValues,
    rx: Fixed,
    ry: Fixed,
    rc: Fixed,
) -> ParticleSpawnRequest {
    ParticleSpawnRequest {
        position: mouse.position,
        initial_velocity: mouse.velocity.scaled(300_000).plus(
            Vec2 { x: centered(rx, 50_000_000), y: centered(ry, 50_000_000) },
        ),
        color: spawn_color(palette, interpolated, SpawnSource::Mouse, rc),
        lifetime_ms: fx_mul(BASE_LIFETIME_MS, SpawnSource::Mouse.lifetime_multiplier()),
        source: SpawnSource::Mouse,
    }
}

/// The request of one pointer spawn for the given unit samples.
#[verifier::when_used_as_spec(mouse_spawn_request_spec)]
pub fn mouse_spawn_request(
    mouse: MouseState,
    palette: ColorPalette,
    interpolated: InterpolatedActValues,
    rx: Fixed,
    ry: Fixed,
    rc: Fixed,
) -> (request: ParticleSpawnRequest)
    ensures
        request == mouse_spawn_request_spec(mouse, palette, interpolated, rx, ry, rc),
{
    ParticleSpawnRequest {
        position: mouse.position,
        initial_velocity: mouse.velocity.scaled(300_000).plus(
            Vec2::new(centered(rx, 50_000_000), centered(ry, 50_000_000)),
        ),
        color: spawn_color(palette, interpolated, SpawnSource::Mouse, rc),
        lifetime_ms: fx_mul(BASE_LIFETIME_MS, SpawnSource::Mouse.lifetime_multiplier()),
        source: SpawnSource::Mouse,
    }
}

/// Whether `request` is a pointer spawn for some unit samples.
pub open spec fn is_mouse_spawn(
    request: ParticleSpawnRequest,
    mouse: MouseState,
    palette: ColorPalette,
    interpolated: InterpolatedActValues,
) -> bool {
    exists|rx: Fixed, ry: Fixed, rc: Fixed|
        is_unit_sample(rx) && is_unit_sample(ry) && is_unit_sample(rc) && request
            == #[trigger] mouse_spawn_request(mouse, palette, interpolated, rx, ry, rc)
}

/// Queues the pointer spawns of this tick.
///
/// Nothing happens while the pointer is inactive. Otherwise the tick's
/// duration is added to the accumulator, and one request is queued for
/// every whole spawn interval (one over [`mouse_spawn_rate`]) that the
/// accumulator holds; the rest of the accumulator is carried to the next
/// tick. Spawning does not depend on the interaction mode.
pub fn spawn_particles_from_mouse(
    mouse: &MouseState,
    spawn_queue: &mut ParticleSpawnQueue,
    interpolated: &InterpolatedActValues,
    palette: &ColorPalette,
    delta_seconds: Fixed,
    is_holding: bool,
)
    ensures
        final(spawn_queue).spawn_rate_per_second == old(spawn_queue).spawn_rate_per_second,
        !mouse.is_active ==> *final(spawn_queue) == *old(spawn_queue),
        mouse.is_active ==> ({
            let interval = fx_div(ONE, mouse_spawn_rate(mouse.velocity.length(), is_holding));
            let filled = fx_add(old(spawn_queue).spawn_accumulator, delta_seconds);
            let before = old(spawn_queue).pending_spawns@;
            let after = final(spawn_queue).pending_spawns@;
            &&& interval > 0
            &&& after.len() == before.len() + whole_intervals(filled, interval)
            &&& after.take(before.len() as int) == before
            &&& final(spawn_queue).spawn_accumulator == interval_remainder(filled, interval)
            &&& final(spawn_queue).spawn_accumulator < interval
            &&& forall|k: int|
                before.len() <= k < after.len() ==> is_mouse_spawn(
                    #[trigger] after[k],
                    *mouse,
                    *palette,
                    *interpolated,
                )
        }),
{
    if !mouse.is_active {
        return ;
    }
    let rate = mouse_spawn_rate(mouse.velocity.length(), is_holding);
    let interval = fx_div(ONE, rate);
    assert(8_333 <= interval <= 125_000) by {
        assert(interval == 1_000_000_000_000int / (rate as int));
        assert(1_000_000_000_000int / (rate as int) <= 125_000) by (nonlinear_arith)
            requires
                8_000_000 <= rate,
        ;
        assert(1_000_000_000_000int / (rate as int) >= 8_333) by (nonlinear_arith)
            requires
                0 < rate <= 120_000_000,
        ;
    }
    spawn_queue.spawn_accumulator = fx_add(spawn_queue.spawn_accumulator, delta_seconds);
    let ghost filled = spawn_queue.spawn_accumulator;
    let ghost before = spawn_queue.pending_spawns@;
    let ghost mut made: nat = 0;
    while spawn_queue.spawn_accumulator >= interval
        invariant
            interval > 0,
            spawn_queue.spawn_rate_per_second == old(spawn_queue).spawn_rate_per_second,
            spawn_queue.pending_spawns@.len() == before.len() + made,
            spawn_queue.pending_spawns@.take(before.len() as int) == before,
            whole_intervals(filled, interval) == made + whole_intervals(
                spawn_queue.spawn_accumulator,
                interval,
            ),
            interval_remainder(filled, interval) == interval_remainder(
                spawn_queue.spawn_accumulator,
                interval,
            ),
            forall|k: int|
                before.len() <= k < spawn_queue.pending_spawns@.len() ==> is_mouse_spawn(
                    #[trigger] spawn_queue.pending_spawns@[k],
                    *mouse,
                    *palette,
                    *interpolated,
                ),
        decreases spawn_queue.spawn_accumulator,
    {
        spawn_queue.spawn_accumulator = spawn_queue.spawn_accumulator - interval;
        let rx = random_unit();
        let ry = random_unit();
        let rc = random_unit();
        let request = mouse_spawn_request(*mouse, *palette, *interpolated, rx, ry, rc);
        let ghost queued = spawn_queue.pending_spawns@;
        spawn_queue.pending_spawns.push(request);
        proof {
            made = made + 1;
            assert(spawn_queue.pending_spawns@.take(before.len() as int) =~= queued.take(
                before.len() as int,
            ));
            assert(is_mouse_spawn(request, *mouse, *palette, *interpolated));
        }
    }
}

/// Spawn count range of a soft beat, as (fewest, most).
pub const SOFT_BEAT_SPAWN_RANGE: (u32, u32) = (5, 10);

/// Spawn count range of a medium beat, as (fewest, most).
pub const MEDIUM_BEAT_SPAWN_RANGE: (u32, u32) = (10, 20);

/// Spawn count range of a strong beat, as (fewest, most).
pub const STRONG_BEAT_SPAWN_RANGE: (u32, u32) = (20, 40);

/// Geometric pattern of a beat spawn.
#[derive(Clone, Copy, Debug, PartialEq, Eq, Structural)]
pub enum SpawnPattern {
    /// Random scatter around the center.
    Scatter,
    /// Evenly angled ring with outward velocity.
    Ripple,
    /// Evenly angled burst with angular jitter.
    Burst,
}

/// The pattern of a beat, or `None` for silence: soft beats scatter, medium
/// beats form a ring, strong beats burst.
pub open spec fn beat_pattern_spec(strength: BeatStrength) -> Option<SpawnPattern> {
    match strength {
        BeatStrength::Silence => None,
        BeatStrength::Soft => Some(SpawnPattern::Scatter),
        BeatStrength::Medium => Some(SpawnPattern::Ripple),
        BeatStrength::Strong => Some(SpawnPattern::Burst),
    }
}

/// The spawn count range of a beat as (fewest, most); silence spawns none.
pub open spec fn beat_count_range_spec(strength: BeatStrength) -> (u32, u32) {
    match strength {
        BeatStrength::Silence => (0, 0),
        BeatStrength::Soft => SOFT_BEAT_SPAWN_RANGE,
        BeatStrength::Medium => MEDIUM_BEAT_SPAWN_RANGE,
        BeatStrength::Strong => STRONG_BEAT_SPAWN_RANGE,
    }
}

/// The pattern of a beat, or `None` for silence.
#[verifier::when_used_as_spec(beat_pattern_spec)]
pub fn beat_pattern(strength: BeatStrength) -> (r: Option<SpawnPattern>)
    ensures
        r == beat_pattern_spec(strength),
{
    match strength {
        BeatStrength::Silence => None,
        BeatStrength::Soft => Some(SpawnPattern::Scatter),
        BeatStrength::Medium => Some(SpawnPattern::Ripple),
        BeatStrength::Strong => Some(SpawnPattern::Burst),
    }
}

/// The spawn count range of a beat as (fewest, most).
#[verifier::when_used_as_spec(beat_count_range_spec)]
pub fn beat_count_range(strength: BeatStrength) -> (r: (u32, u32))
    ensures
        r == beat_count_range_spec(strength),
        r.0 <= r.1,
{
    match strength {
        BeatStrength::Silence => (0, 0),
        BeatStrength::Soft => SOFT_BEAT_SPAWN_RANGE,
        BeatStrength::Medium => MEDIUM_BEAT_SPAWN_RANGE,
        BeatStrength::Strong => STRONG_BEAT_SPAWN_RANGE,
    }
}

/// The direction angle in radians of particle `index` out of `count`.
///
/// Ring and burst place the particles at even angles around the full turn;
/// the burst adds a jitter of up to 0.15 radians either way, spread from
/// the unit sample `jitter`. The scatter has no direction: its angle is
/// zero.
pub open spec fn beat_spawn_angle_spec(
    pattern: SpawnPattern,
    index: u32,
    count: u32,
    jitter: Fixed,
) -> Fixed {
    let even = fx_mul(fx_div(from_int(index as i64), from_int(count as i64)), TAU);
    match pattern {
        SpawnPattern::Scatter => 0,
        SpawnPattern::Ripple => even,
        SpawnPattern::Burst => fx_add(even, centered(jitter, 300_000)),
    }
}

/// The direction angle in radians of particle `index` out of `count`.
#[verifier::when_used_as_spec(beat_spawn_angle_spec)]
pub fn beat_spawn_angle(pattern: SpawnPattern, index: u32, count: u32, jitter: Fixed) -> (r: Fixed)
    ensures
        r == beat_spawn_angle_spec(pattern, index, count, jitter),
{
    let even = fx_mul(fx_div(from_int(index as i64), from_int(count as i64)), TAU);
    match pattern {
        SpawnPattern::Scatter => 0,
        SpawnPattern::Ripple => even,
        SpawnPattern::Burst => fx_add(even, centered(jitter, 300_000)),
    }
}

/// What a beat is about to spawn: the pattern and one direction angle per
/// particle. The host turns each angle into the unit vector
/// `(cos angle, sin angle)`.
#[derive(Clone, Debug, PartialEq, Eq)]
pub struct BeatSpawnPlan {
    /// The pattern of the spawn.
    pub pattern: SpawnPattern,
    /// Direction angle of each particle in radians.
    pub angles: Vec<Fixed>,
}

/// Whether `angle` is the direction angle of particle `index` out of
/// `count` for some jitter sample.
pub open spec fn is_beat_angle(angle: Fixed, pattern: SpawnPattern, index: u32, count: u32) -> bool {
    exists|jitter: Fixed|
        is_unit_sample(jitter) && angle == #[trigger] beat_spawn_angle(
            pattern,
            index,
            count,
            jitter,
        )
}

/// Decides what a beat spawns.
///
/// Silence spawns nothing. Any other strength picks its pattern and a
/// random particle count from its range (soft 5 to 10, medium 10 to 20,
/// strong 20 to 40) and lays the particles out at even angles, jittered for
/// the burst.
pub fn plan_beat_spawn(strength: BeatStrength) -> (plan: Option<BeatSpawnPlan>)
    ensures
        plan is None <==> strength == BeatStrength::Silence,
        plan matches Some(p) ==> {
            &&& Some(p.pattern) == beat_pattern(strength)
            &&& beat_count_range(strength).0 <= p.angles@.len() <= beat_count_range(strength).1
            &&& forall|i: int|
                0 <= i < p.angles@.len() ==> is_beat_angle(
                    #[trigger] p.angles@[i],
                    p.pattern,
                    i as u32,
                    p.angles@.len() as u32,
                )
        },
{
    let pattern = match beat_pattern(strength) {
        None => {
            return None;
        },
        Some(pattern) => pattern,
    };
    let range = beat_count_range(strength);
    let count: u32 = random_between(range.0, range.1);
    let mut angles: Vec<Fixed> = Vec::new();
    let mut index: u32 = 0;
    while index < count
        invariant
            index <= count,
            angles@.len() == index,
            forall|i: int|
                0 <= i < index ==> is_beat_angle(#[trigger] angles@[i], pattern, i as u32, count),
        decreases count - index,
    {
        let jitter = random_unit();
        let angle = beat_spawn_angle(pattern, index, count, jitter);
        angles.push(angle);
        index = index + 1;
    }
    Some(BeatSpawnPlan { pattern, angles })
}

/// The six unit samples that shape one beat-spawned particle.
#[derive(Clone, Copy, Debug, PartialEq, Eq, Structural)]
pub struct BeatSamples {
    /// First geometry sample: horizontal offset (scatter), ring radius
    /// (ripple) or speed (burst).
    pub a: Fixed,
    /// Second geometry sample: vertical offset (scatter), outward speed
    /// (ripple) or radial offset (burst).
    pub b: Fixed,
    /// Horizontal velocity of a scattered particle.
    pub c: Fixed,
    /// Vertical velocity of a scattered particle.
    pub d: Fixed,
    /// Lifetime variation.
    pub lifetime: Fixed,
    /// Colour pick.
    pub color: Fixed,
}

impl BeatSamples {
    /// Whether every sample is a unit sample.
    pub open spec fn valid(self) -> bool {
        &&& is_unit_sample(self.a)
        &&& is_unit_sample(self.b)
        &&& is_unit_sample(self.c)
        &&& is_unit_sample(self.d)
        &&& is_unit_sample(self.lifetime)
        &&& is_unit_sample(self.color)
    }
}

/// Where a beat-spawned particle appears relative to the center, and how
/// fast it moves, as (offset, velocity).
///
/// - Scatter: an offset of up to 100 units and a velocity of up to 50 units
///   per second either way on each axis.
/// - Ripple: on a ring of radius 50 to 100 in `direction`, moving outward at
///   30 to 80 units per second.
/// - Burst: moving in `direction` at 100 to 250 units per second, starting
///   10 to 40 units out along that velocity.
pub open spec fn beat_spawn_geometry(
    pattern: SpawnPattern,
    direction: Vec2,
    samples: BeatSamples,
) -> (Vec2, Vec2) {
    match pattern {
        SpawnPattern::Scatter => (
            Vec2 { x: centered(samples.a, 200_000_000), y: centered(samples.b, 200_000_000) },
            Vec2 { x: centered(samples.c, 100_000_000), y: centered(samples.d, 100_000_000) },
        ),
        SpawnPattern::Ripple => {
            let offset = direction.scaled(spread(samples.a, 50_000_000, 50_000_000));
            (offset, offset.normalized().scaled(spread(samples.b, 30_000_000, 50_000_000)))
        },
        SpawnPattern::Burst => {
            let velocity = direction.scaled(spread(samples.a, 100_000_000, 150_000_000));
            (velocity.normalized().scaled(spread(samples.b, 10_000_000, 30_000_000)), velocity)
        },
    }
}

/// The request of one beat-spawned particle around `center`.
///
/// Position and velocity follow [`beat_spawn_geometry`]; the lifetime is
/// the base lifetime times 0.8 times a variation between 0.8 and 1.2; the
/// colour is picked for a beat spawn.
pub open spec fn beat_spawn_request_spec(
    pattern: SpawnPattern,
    center: Vec2,
    direction: Vec2,
    samples: BeatSamples,
    palette: ColorPalette,
    interpolated: InterpolatedActValues,
) -> ParticleSpawnRequest {
    ParticleSpawnRequest {
        position: center.plus(beat_spawn_geometry(pattern, direction, samples).0),
        initial_velocity: beat_spawn_geometry(pattern, direction, samples).1,
        color: spawn_color(palette, interpolated, SpawnSource::Beat, samples.color),
        lifetime_ms: fx_mul(
            fx_mul(BASE_LIFETIME_MS, SpawnSource::Beat.lifetime_multiplier()),
            spread(samples.lifetime, 800_000, 400_000),
        ),
        source: SpawnSource::Beat,
    }
}

/// The request of one beat-spawned particle around `center`.
#[verifier::when_used_as_spec(beat_spawn_request_spec)]
pub fn beat_spawn_request(
    pattern: SpawnPattern,
    center: Vec2,
    direction: Vec2,
    samples: BeatSamples,
    palette: ColorPalette,
    interpolated: InterpolatedActValues,
) -> (request: ParticleSpawnRequest)
    ensures
        request == beat_spawn_request_spec(
            pattern,
            center,
            direction,
            samples,
            palette,
            interpolated,
        ),
{
    let (offset, velocity) = match pattern {
        SpawnPattern::Scatter => (
            Vec2::new(centered(samples.a, 200_000_000), centered(samples.b, 200_000_000)),
            Vec2::new(centered(samples.c, 100_000_000), centered(samples.d, 100_000_000)),
        ),
        SpawnPattern::Ripple => {
            let offset = direction.scaled(spread(samples.a, 50_000_000, 50_000_000));
            (offset, offset.normalized().scaled(spread(samples.b, 30_000_000, 50_000_000)))
        },
        SpawnPattern::Burst => {
            let velocity = direction.scaled(spread(samples.a, 100_000_000, 150_000_000));
            (velocity.normalized().scaled(spread(samples.b, 10_000_000, 30_000_000)), velocity)
        },
    };
    ParticleSpawnRequest {
        position: center.plus(offset),
        initial_velocity: velocity,
        color: spawn_color(palette, interpolated, SpawnSource::Beat, samples.color),
        lifetime_ms: fx_mul(
            fx_mul(BASE_LIFETIME_MS, SpawnSource::Beat.lifetime_multiplier()),
            spread(samples.lifetime, 800_000, 400_000),
        ),
        source: SpawnSource::Beat,
    }
}

/// The center of a beat spawn: the pointer while it is active, else the
/// origin.
pub open spec fn beat_center(mouse: MouseState) -> Vec2 {
    if mouse.is_active {
        mouse.position
    } else {
        Vec2::zero()
    }
}

/// The direction of particle `i`: the host's unit vector, or the zero
/// vector where the host supplied none.
pub open spec fn direction_at(directions: Seq<Vec2>, i: int) -> Vec2 {
    if 0 <= i < directions.len() {
        directions[i]
    } else {
        Vec2::zero()
    }
}

/// Whether `request` is a beat spawn in `direction` for some valid samples.
pub open spec fn is_beat_spawn(
    request: ParticleSpawnRequest,
    pattern: SpawnPattern,
    center: Vec2,
    direction: Vec2,
    palette: ColorPalette,
    interpolated: InterpolatedActValues,
) -> bool {
    exists|samples: BeatSamples|
        samples.valid() && request == #[trigger] beat_spawn_request(
            pattern,
            center,
            direction,
            samples,
            palette,
            interpolated,
        )
}

/// Draws the six samples of one beat-spawned particle.
fn draw_beat_samples() -> (samples: BeatSamples)
    ensures
        samples.valid(),
{
    BeatSamples {
        a: random_unit(),
        b: random_unit(),
        c: random_unit(),
        d: random_unit(),
        lifetime: random_unit(),
        color: random_unit(),
    }
}

/// Queues the particles of one planned beat spawn.
///
/// One request is queued per angle of the plan, around the pointer if it is
/// active and around the origin otherwise. `directions[i]` is the unit
/// vector of `plan.angles[i]`, which the host evaluates with cosine and
/// sine. Requests already in the queue stay in front.
pub fn spawn_particles_from_beat(
    plan: &BeatSpawnPlan,
    directions: &Vec<Vec2>,
    spawn_queue: &mut ParticleSpawnQueue,
    interpolated: &InterpolatedActValues,
    palette: &ColorPalette,
    mouse: &MouseState,
)
    ensures
        final(spawn_queue).spawn_rate_per_second == old(spawn_queue).spawn_rate_per_second,
        final(spawn_queue).spawn_accumulator == old(spawn_queue).spawn_accumulator,
        final(spawn_queue).pending_spawns@.len() == old(spawn_queue).pending_spawns@.len()
            + plan.angles@.len(),
        final(spawn_queue).pending_spawns@.take(old(spawn_queue).pending_spawns@.len() as int)
            == old(spawn_queue).pending_spawns@,
        forall|i: int|
            0 <= i < plan.angles@.len() ==> is_beat_spawn(
                #[trigger] final(spawn_queue).pending_spawns@[old(spawn_queue).pending_spawns@.len()
                    + i],
                plan.pattern,
                beat_center(*mouse),
                direction_at(directions@, i),
                *palette,
                *interpolated,
            ),
{
    let center = if mouse.is_active { mouse.position } else { Vec2::zero() };
    let ghost before = spawn_queue.pending_spawns@;
    let count: usize = plan.angles.len();
    let mut i: usize = 0;
    while i < count
        invariant
            i <= count,
            count == plan.angles@.len(),
            center == beat_center(*mouse),
            before == old(spawn_queue).pending_spawns@,
            spawn_queue.spawn_rate_per_second == old(spawn_queue).spawn_rate_per_second,
            spawn_queue.spawn_accumulator == old(spawn_queue).spawn_accumulator,
            spawn_queue.pending_spawns@.len() == before.len() + i,
            spawn_queue.pending_spawns@.take(before.len() as int) == before,
            forall|k: int|
                0 <= k < i ==> is_beat_spawn(
                    #[trigger] spawn_queue.pending_spawns@[before.len() + k],
                    plan.pattern,
                    center,
                    direction_at(directions@, k),
                    *palette,
                    *interpolated,
                ),
        decreases count - i,
    {
        let direction = if i < directions.len() { directions[i] } else { Vec2::zero() };
        let samples = draw_beat_samples();
        let request = beat_spawn_request(
            plan.pattern,
            center,
            direction,
            samples,
            *palette,
            *interpolated,
        );
        let ghost queued = spawn_queue.pending_spawns@;
        spawn_queue.pending_spawns.push(request);
        proof {
            assert(spawn_queue.pending_spawns@.take(before.len() as int) =~= queued.take(
                before.len() as int,
            ));
            assert(is_beat_spawn(
                request,
                plan.pattern,
                center,
                direction_at(directions@, i as int),
                *palette,
                *interpolated,
            ));
            assert forall|k: int| 0 <= k < i + 1 implies is_beat_spawn(
                #[trigger] spawn_queue.pending_spawns@[before.len() + k],
                plan.pattern,
                center,
                direction_at(directions@, k),
                *palette,
                *interpolated,
            ) by {
                if k < i {
                    assert(spawn_queue.pending_spawns@[before.len() + k] == queued[before.len()
                        + k]);
                }
            }
        }
        i = i + 1;
    }
}

} // verus!
