//! Per-particle state: the components that make up one pooled particle.

use vstd::prelude::*;
use crate::color::Srgba;
use crate::fixed::{Fixed, fx_add, fx_mul, fx_abs, fx_neg, ONE};
use crate::types::{FrequencyBand, ParticleBehaviorType, SpawnSource};
use crate::vector::Vec2;

verus! {

/// One full turn in radians.
pub const TAU: Fixed = 6_283_185;

/// Identity of a pooled particle: its stable slot index.
#[derive(Clone, Copy, Debug, PartialEq, Eq, Structural)]
pub struct Particle {
    /// Slot index, fixed for the lifetime of the pool.
    pub id: u32,
}

impl Default for Particle {
    fn default() -> (r: Particle)
        ensures
            r == (Particle {
                id: 0,
            }),
    {
        Particle {
            id: 0,
        }
    }
}

/// Lifecycle of a particle.
#[derive(Clone, Copy, Debug, PartialEq, Eq, Structural)]
pub struct ParticleState {
    /// Whether the particle is simulated and drawn.
    pub active: bool,
    /// Milliseconds left before the particle expires.
    pub lifetime_remaining_ms: Fixed,
    /// Milliseconds the particle was given at spawn.
    pub lifetime_total_ms: Fixed,
}

impl Default for ParticleState {
    fn default() -> (r: ParticleState)
        ensures
            r == (ParticleState {
                active: false,
                lifetime_remaining_ms: 0,
                lifetime_total_ms: 0,
            }),
    {
        ParticleState {
            active: false,
            lifetime_remaining_ms: 0,
            lifetime_total_ms: 0,
        }
    }
}

/// Visual attributes of a particle.
#[derive(Clone, Copy, Debug, PartialEq, Eq, Structural)]
pub struct ParticleVisual {
    /// Colour assigned at spawn.
    pub base_color: Srgba,
    /// Colour shown after all modulation.
    pub current_color: Srgba,
    /// Opacity from 0 to 1.
    pub opacity: Fixed,
    /// Scale multiplier of the sprite.
    pub scale: Fixed,
    /// Share of this particle in the bloom effect.
    pub bloom_contribution: Fixed,
}

impl Default for ParticleVisual {
    fn default() -> (r: ParticleVisual)
        ensures
            r == (ParticleVisual {
                base_color: Srgba::white(),
                current_color: Srgba::white(),
                opacity: 1_000_000,
                scale: 1_000_000,
                bloom_contribution: 0,
            }),
    {
        ParticleVisual {
            base_color: Srgba::white(),
            current_color: Srgba::white(),
            opacity: 1_000_000,
            scale: 1_000_000,
            bloom_contribution: 0,
        }
    }
}

/// Kinematic state of a particle.
#[derive(Clone, Copy, Debug, PartialEq, Eq, Structural)]
pub struct ParticleMotion {
    /// World units per second.
    pub velocity: Vec2,
    /// World units per second squared, rebuilt every tick.
    pub acceleration: Vec2,
    /// Share of the velocity kept per frame at 60 frames per second.
    pub drag: Fixed,
    /// Phase offset of the turbulence noise.
    pub turbulence_seed: Fixed,
}

impl Default for ParticleMotion {
    fn default() -> (r: ParticleMotion)
        ensures
            r == (ParticleMotion {
                velocity: Vec2::zero(),
                acceleration: Vec2::zero(),
                drag: 980_000,
                turbulence_seed: 0,
            }),
    {
        ParticleMotion {
            velocity: Vec2::zero(),
            acceleration: Vec2::zero(),
            drag: 980_000,
            turbulence_seed: 0,
        }
    }
}

/// Behavior mode of a particle.
#[derive(Clone, Copy, Debug, PartialEq, Eq)]
pub struct ParticleBehavior {
    /// Which force law applies.
    pub behavior_type: ParticleBehaviorType,
    /// Multiplier of the behavior force.
    pub behavior_strength: Fixed,
    /// Attraction point for swarm and orbit; the origin when unset.
    pub target_position: Option<Vec2>,
}

impl Default for ParticleBehavior {
    fn default() -> (r: ParticleBehavior)
        ensures
            r == (ParticleBehavior {
                behavior_type: ParticleBehaviorType::Drift,
                behavior_strength: 1_000_000,
                target_position: None,
            }),
    {
        ParticleBehavior {
            behavior_type: ParticleBehaviorType::Drift,
            behavior_strength: 1_000_000,
            target_position: None,
        }
    }
}

/// One recorded point of a trail.
#[derive(Clone, Copy, Debug, PartialEq, Eq, Structural)]
pub struct TrailSegment {
    /// Where the particle was.
    pub position: Vec2,
    /// Current opacity of the segment.
    pub opacity: Fixed,
    /// Width of the trail at this segment.
    pub width: Fixed,
    /// When the segment was recorded, in milliseconds.
    pub timestamp_ms: Fixed,
}

impl Default for TrailSegment {
    fn default() -> (r: TrailSegment)
        ensures
            r == (TrailSegment {
                position: Vec2::zero(),
                opacity: 0,
                width: 0,
                timestamp_ms: 0,
            }),
    {
        TrailSegment {
            position: Vec2::zero(),
            opacity: 0,
            width: 0,
            timestamp_ms: 0,
        }
    }
}

/// How a trail is drawn.
#[derive(Clone, Copy, Debug, PartialEq, Eq, Structural)]
pub struct TrailRenderer {
    /// Whether the particle records and shows a trail.
    pub enabled: bool,
    /// Width at the newest segment.
    pub base_width: Fixed,
    /// Width ratio from one segment to the next older one.
    pub taper_factor: Fixed,
}

impl Default for TrailRenderer {
    fn default() -> (r: TrailRenderer)
        ensures
            r == (TrailRenderer {
                enabled: true,
                base_width: 2_000_000,
                taper_factor: 800_000,
            }),
    {
        TrailRenderer {
            enabled: true,
            base_width: 2_000_000,
            taper_factor: 800_000,
        }
    }
}

/// How the pointer currently affects a particle.
#[derive(Clone, Copy, Debug, PartialEq, Eq, Structural)]
pub struct MouseInfluence {
    /// Whether the particle is inside the interaction radius.
    pub affected: bool,
    /// Distance to the pointer in world units.
    pub distance_to_cursor: Fixed,
    /// Falloff value from 0 to 1.
    pub influence_strength: Fixed,
}

impl Default for MouseInfluence {
    fn default() -> (r: MouseInfluence)
        ensures
            r == (MouseInfluence {
                affected: false,
                distance_to_cursor: i64::MAX,
                influence_strength: 0,
            }),
    {
        MouseInfluence {
            affected: false,
            distance_to_cursor: i64::MAX,
            influence_strength: 0,
        }
    }
}

/// Weight of a particle under attraction forces.
#[derive(Clone, Copy, Debug, PartialEq, Eq, Structural)]
pub struct Attractable {
    /// Multiplier of attraction forces.
    pub attraction_weight: Fixed,
}

impl Default for Attractable {
    fn default() -> (r: Attractable)
        ensures
            r == (Attractable {
                attraction_weight: 1_000_000,
            }),
    {
        Attractable {
            attraction_weight: 1_000_000,
        }
    }
}

/// Origin of a particle.
#[derive(Clone, Copy, Debug, PartialEq, Eq, Structural)]
pub struct Spawnable {
    /// The producer that requested the particle.
    pub spawn_source: SpawnSource,
}

impl Default for Spawnable {
    fn default() -> (r: Spawnable)
        ensures
            r == (Spawnable {
                spawn_source: SpawnSource::Automatic,
            }),
    {
        Spawnable {
            spawn_source: SpawnSource::Automatic,
        }
    }
}

/// How a particle responds to the audio signal.
#[derive(Clone, Copy, Debug, PartialEq, Eq, Structural)]
pub struct AudioReactive {
    /// Multiplier of the band amplitude.
    pub amplitude_sensitivity: Fixed,
    /// The band that drives the particle.
    pub frequency_band: FrequencyBand,
    /// Smoothing factor of the response.
    pub response_smoothing: Fixed,
}

impl Default for AudioReactive {
    fn default() -> (r: AudioReactive)
        ensures
            r == (AudioReactive {
                amplitude_sensitivity: 500_000,
                frequency_band: FrequencyBand::Mid,
                response_smoothing: 100_000,
            }),
    {
        AudioReactive {
            amplitude_sensitivity: 500_000,
            frequency_band: FrequencyBand::Mid,
            response_smoothing: 100_000,
        }
    }
}

/// Beat-driven scale pulse of a particle.
#[derive(Clone, Copy, Debug, PartialEq, Eq, Structural)]
pub struct PulseResponder {
    /// Phase of the pulse in radians.
    pub pulse_phase: Fixed,
    /// Current amplitude of the pulse.
    pub pulse_amplitude: Fixed,
    /// Exponential decay rate per second.
    pub decay_rate: Fixed,
    /// Scale factor from the pulse; 1 means none.
    pub current_scale_modifier: Fixed,
}

impl Default for PulseResponder {
    fn default() -> (r: PulseResponder)
        ensures
            r == (PulseResponder {
                pulse_phase: 0,
                pulse_amplitude: 0,
                decay_rate: 3_000_000,
                current_scale_modifier: 1_000_000,
            }),
    {
        PulseResponder {
            pulse_phase: 0,
            pulse_amplitude: 0,
            decay_rate: 3_000_000,
            current_scale_modifier: 1_000_000,
        }
    }
}

/// Whether a particle is shown.
#[derive(Clone, Copy, Debug, PartialEq, Eq, Structural)]
pub enum Visibility {
    /// Not drawn.
    Hidden,
    /// Drawn.
    Visible,
}

/// Placement of a particle in the world.
#[derive(Clone, Copy, Debug, PartialEq, Eq, Structural)]
pub struct Transform {
    /// Position in world units.
    pub translation: Vec2,
    /// Uniform scale.
    pub scale: Fixed,
}

impl Default for Transform {
    fn default() -> (r: Transform)
        ensures
            r == (Transform {
                translation: Vec2::zero(),
                scale: 1_000_000,
            }),
    {
        Transform {
            translation: Vec2::zero(),
            scale: 1_000_000,
        }
    }
}

/// What the renderer reads for one particle.
#[derive(Clone, Copy, Debug, PartialEq, Eq)]
pub struct Sprite {
    /// Tint with the final opacity in its alpha channel.
    pub color: Srgba,
    /// Side length of the drawn square, when set.
    pub custom_size: Option<Fixed>,
}

impl Default for Sprite {
    fn default() -> (r: Sprite)
        ensures
            r == (Sprite {
                color: Srgba::white(),
                custom_size: None,
            }),
    {
        Sprite {
            color: Srgba::white(),
            custom_size: None,
        }
    }
}

/// Ring of the last twelve recorded points of a particle.
///
/// The ring never grows: a push overwrites the slot after the head and
/// moves the head onto it.
#[derive(Clone, Copy, Debug, PartialEq, Eq)]
pub struct Trail {
    /// The twelve slots.
    pub segments: [TrailSegment; 12],
    /// Index of the slot written last.
    pub head_index: usize,
}

impl Default for Trail {
    fn default() -> (r: Trail)
        ensures
            r@ == TrailView::cleared(),
    {
        Trail::new()
    }
}

impl TrailSegment {
    /// The empty segment: at the origin, invisible, without width.
    pub open spec fn default_spec() -> TrailSegment {
        TrailSegment { position: Vec2::zero(), opacity: 0, width: 0, timestamp_ms: 0 }
    }

    /// The empty segment.
    #[verifier::when_used_as_spec(default_spec)]
    pub fn new() -> (r: TrailSegment)
        ensures
            r == TrailSegment::default_spec(),
    {
        TrailSegment { position: Vec2::zero(), opacity: 0, width: 0, timestamp_ms: 0 }
    }
}

/// The mathematical content of a [`Trail`]: its slots as a sequence and the
/// position of its head.
pub struct TrailView {
    /// The slots in storage order.
    pub segments: Seq<TrailSegment>,
    /// Index of the slot written last.
    pub head_index: int,
}

impl TrailView {
    /// The slot that holds the segment `age` pushes back from the newest.
    pub open spec fn slot_of(self, age: int) -> int {
        (self.head_index % 12 + 12 - age) % 12
    }

    /// The twelve segments from newest to oldest.
    pub open spec fn newest_first(self) -> Seq<TrailSegment> {
        Seq::new(12, |age: int| self.segments[self.slot_of(age)])
    }

    /// The ring after one push of `segment`: the slot after the head is
    /// overwritten and becomes the head.
    pub open spec fn pushed(self, segment: TrailSegment) -> TrailView {
        let head = (self.head_index % 12 + 1) % 12;
        TrailView { segments: self.segments.update(head, segment), head_index: head }
    }

    /// The ring after pushing every segment of `segments` in order.
    pub open spec fn pushed_all(self, segments: Seq<TrailSegment>) -> TrailView
        decreases segments.len(),
    {
        if segments.len() == 0 {
            self
        } else {
            self.pushed_all(segments.drop_last()).pushed(segments.last())
        }
    }

    /// The ring with the head at slot zero and every slot empty.
    pub open spec fn cleared() -> TrailView {
        TrailView { segments: Seq::new(12, |i: int| TrailSegment::default_spec()), head_index: 0 }
    }
}

impl View for Trail {
    type V = TrailView;

    open spec fn view(&self) -> TrailView {
        TrailView { segments: self.segments@, head_index: self.head_index as int }
    }
}

impl Trail {
    /// A trail of twelve empty segments.
    pub fn new() -> (r: Trail)
        ensures
            r@ == TrailView::cleared(),
    {
        let r = Trail { segments: [TrailSegment::new(); 12], head_index: 0 };
        assert(r@.segments =~= TrailView::cleared().segments);
        r
    }

    /// Records `segment` as the newest point. The slot after the head is
    /// overwritten and becomes the head; the other eleven slots keep their
    /// contents, so the oldest point is the one that is lost.
    pub fn push_segment(&mut self, segment: TrailSegment)
        ensures
            final(self)@ == old(self)@.pushed(segment),
            final(self).head_index < 12,
            final(self)@.newest_first() == seq![segment] + old(self)@.newest_first().drop_last(),
    {
        let head: usize = (self.head_index % 12 + 1) % 12;
        self.head_index = head;
        self.segments[head] = segment;
        proof {
            lemma_push_shifts(old(self)@, segment);
        }
    }

    /// The twelve segments from newest to oldest.
    pub fn iter_segments(&self) -> (r: Vec<TrailSegment>)
        ensures
            r@ == self@.newest_first(),
    {
        let mut out: Vec<TrailSegment> = Vec::new();
        let head: usize = self.head_index % 12;
        let mut age: usize = 0;
        while age < 12
            invariant
                age <= 12,
                head == self.head_index % 12,
                out@.len() == age,
                forall|k: int| 0 <= k < age ==> out@[k] == self.segments@[self@.slot_of(k)],
            decreases 12 - age,
        {
            let index: usize = (head + 12 - age) % 12;
            out.push(self.segments[index]);
            age = age + 1;
        }
        assert(out@ =~= self@.newest_first());
        out
    }
}

/// One push moves every segment one place back and puts the new one first.
pub proof fn lemma_push_shifts(trail: TrailView, segment: TrailSegment)
    requires
        trail.segments.len() == 12,
    ensures
        0 <= trail.pushed(segment).head_index < 12,
        trail.pushed(segment).segments.len() == 12,
        trail.pushed(segment).newest_first() == seq![segment] + trail.newest_first().drop_last(),
{
    let next = trail.pushed(segment);
    let head = next.head_index;
    let after = next.newest_first();
    let expect = seq![segment] + trail.newest_first().drop_last();
    assert forall|age: int| 0 <= age < 12 implies after[age] == expect[age] by {
        if age > 0 {
            assert(next.slot_of(age) == trail.slot_of(age - 1));
            assert(next.slot_of(age) != head);
        }
    }
    assert(after =~= expect);
}

/// Pushing any run of segments onto any trail leaves exactly twelve slots,
/// and reading from newest to oldest gives the run backward: the segment
/// pushed last comes first, and so on for as many segments as were pushed,
/// up to twelve. What is left of the twelve places holds the newest
/// segments of the trail as it was before.
pub proof fn lemma_trail_holds_latest(trail: TrailView, pushes: Seq<TrailSegment>)
    requires
        trail.segments.len() == 12,
    ensures
        trail.pushed_all(pushes).segments.len() == 12,
        trail.pushed_all(pushes).newest_first().len() == 12,
        forall|age: int|
            0 <= age < 12 && age < pushes.len() ==> #[trigger] trail.pushed_all(
                pushes,
            ).newest_first()[age] == pushes[pushes.len() - 1 - age],
        forall|age: int|
            pushes.len() <= age < 12 ==> #[trigger] trail.pushed_all(pushes).newest_first()[age]
                == trail.newest_first()[age - pushes.len()],
    decreases pushes.len(),
{
    if pushes.len() > 0 {
        let earlier = pushes.drop_last();
        let before = trail.pushed_all(earlier);
        let after = before.pushed(pushes.last());
        lemma_trail_holds_latest(trail, earlier);
        lemma_push_shifts(before, pushes.last());
        assert(trail.pushed_all(pushes) == after);
        assert forall|age: int| 0 <= age < 12 && age < pushes.len() implies #[trigger] after.newest_first()[age]
            == pushes[pushes.len() - 1 - age] by {
            if age > 0 {
                assert(after.newest_first()[age] == before.newest_first()[age - 1]);
                assert(earlier[earlier.len() - 1 - (age - 1)] == pushes[pushes.len() - 1 - age]);
            }
        }
        assert forall|age: int| pushes.len() <= age < 12 implies #[trigger] after.newest_first()[age]
            == trail.newest_first()[age - pushes.len()] by {
            assert(after.newest_first()[age] == before.newest_first()[age - 1]);
        }
    }
}

impl PulseResponder {
    /// The responder after a trigger with `amplitude`.
    pub open spec fn triggered(self, amplitude: Fixed) -> PulseResponder {
        PulseResponder { pulse_phase: 0, pulse_amplitude: amplitude, ..self }
    }

    /// The phase after `delta_seconds`: one full turn per second.
    pub open spec fn next_phase_spec(&self, delta_seconds: Fixed) -> Fixed {
        fx_add(self.pulse_phase, fx_mul(delta_seconds, TAU))
    }

    /// The argument of the exponential that damps the amplitude over
    /// `delta_seconds`.
    pub open spec fn decay_exponent_spec(&self, delta_seconds: Fixed) -> Fixed {
        fx_mul(fx_neg(self.decay_rate), delta_seconds)
    }

    /// The responder after one update.
    pub open spec fn updated(self, delta_seconds: Fixed, decay_sample: Fixed) -> PulseResponder {
        if self.pulse_amplitude > 1_000 {
            PulseResponder {
                pulse_phase: self.next_phase_spec(delta_seconds),
                pulse_amplitude: fx_mul(self.pulse_amplitude, decay_sample),
                ..self
            }
        } else {
            PulseResponder { pulse_amplitude: 0, ..self }
        }
    }

    /// The pulse value that an update returns.
    pub open spec fn pulse_value(
        self,
        delta_seconds: Fixed,
        decay_sample: Fixed,
        sine_sample: Fixed,
    ) -> Fixed {
        if self.pulse_amplitude > 1_000 {
            fx_mul(fx_mul(self.pulse_amplitude, decay_sample), fx_abs(sine_sample))
        } else {
            0
        }
    }

    /// Starts a new pulse with the given amplitude at phase zero.
    pub fn trigger(&mut self, amplitude: Fixed)
        ensures
            *final(self) == old(self).triggered(amplitude),
    {
        self.pulse_phase = 0;
        self.pulse_amplitude = amplitude;
    }

    /// The phase that the pulse reaches after `delta_seconds`. The host
    /// takes the sine of it for [`PulseResponder::update`].
    #[verifier::when_used_as_spec(next_phase_spec)]
    pub fn next_phase(&self, delta_seconds: Fixed) -> (r: Fixed)
        ensures
            r == self.next_phase_spec(delta_seconds),
    {
        fx_add(self.pulse_phase, fx_mul(delta_seconds, TAU))
    }

    /// The exponent `-decay_rate * delta_seconds`. The host takes the
    /// exponential of it for [`PulseResponder::update`].
    #[verifier::when_used_as_spec(decay_exponent_spec)]
    pub fn decay_exponent(&self, delta_seconds: Fixed) -> (r: Fixed)
        ensures
            r == self.decay_exponent_spec(delta_seconds),
    {
        fx_mul(fx_neg(self.decay_rate), delta_seconds)
    }

    /// Advances the pulse by `delta_seconds` and returns its current value.
    ///
    /// While the amplitude is above one thousandth, the phase advances by
    /// one turn per second, the amplitude is damped by `decay_sample`, and
    /// the value is the damped amplitude times the magnitude of
    /// `sine_sample`. Otherwise the amplitude snaps to zero and the value is
    /// zero.
    ///
    /// `decay_sample` stands for the exponential of
    /// [`PulseResponder::decay_exponent`] and `sine_sample` for the sine of
    /// [`PulseResponder::next_phase`]; the host evaluates both.
    pub fn update(&mut self, delta_seconds: Fixed, decay_sample: Fixed, sine_sample: Fixed) -> (r:
        Fixed)
        ensures
            *final(self) == old(self).updated(delta_seconds, decay_sample),
            r == old(self).pulse_value(delta_seconds, decay_sample, sine_sample),
    {
        if self.pulse_amplitude > 1_000 {
            self.pulse_phase = fx_add(self.pulse_phase, fx_mul(delta_seconds, TAU));
            self.pulse_amplitude = fx_mul(self.pulse_amplitude, decay_sample);
            fx_mul(self.pulse_amplitude, fx_abs(sine_sample))
        } else {
            self.pulse_amplitude = 0;
            0
        }
    }
}

/// Everything that belongs to one pooled particle.
#[derive(Clone, Copy, Debug, PartialEq, Eq)]
pub struct ParticleBundle {
    /// Identity.
    pub particle: Particle,
    /// Lifecycle.
    pub state: ParticleState,
    /// Visual attributes.
    pub visual: ParticleVisual,
    /// Kinematic state.
    pub motion: ParticleMotion,
    /// Behavior mode.
    pub behavior: ParticleBehavior,
    /// Trail history.
    pub trail: Trail,
    /// Trail drawing configuration.
    pub trail_renderer: TrailRenderer,
    /// Pointer influence bookkeeping.
    pub mouse_influence: MouseInfluence,
    /// Attraction weight.
    pub attractable: Attractable,
    /// Origin.
    pub spawnable: Spawnable,
    /// Audio response configuration.
    pub audio_reactive: AudioReactive,
    /// Beat pulse.
    pub pulse_responder: PulseResponder,
    /// What the renderer reads.
    pub sprite: Sprite,
    /// Placement.
    pub transform: Transform,
    /// Whether the particle is shown.
    pub visibility: Visibility,
}

impl ParticleBundle {
    /// The resting particle of slot `id`: inactive, hidden, every component
    /// at its default.
    pub open spec fn is_fresh(&self, id: u32) -> bool {
        &&& self.particle == (Particle { id })
        &&& self.state == (ParticleState {
            active: false,
            lifetime_remaining_ms: 0,
            lifetime_total_ms: 0,
        })
        &&& self.visual == (ParticleVisual {
            base_color: Srgba::white(),
            current_color: Srgba::white(),
            opacity: ONE,
            scale: ONE,
            bloom_contribution: 0,
        })
        &&& self.motion == (ParticleMotion {
            velocity: Vec2::zero(),
            acceleration: Vec2::zero(),
            drag: 980_000,
            turbulence_seed: 0,
        })
        &&& self.behavior == (ParticleBehavior {
            behavior_type: ParticleBehaviorType::Drift,
            behavior_strength: ONE,
            target_position: None,
        })
        &&& self.trail@ == TrailView::cleared()
        &&& self.trail_renderer == (TrailRenderer {
            enabled: true,
            base_width: 2_000_000,
            taper_factor: 800_000,
        })
        &&& self.mouse_influence == (MouseInfluence {
            affected: false,
            distance_to_cursor: i64::MAX,
            influence_strength: 0,
        })
        &&& self.attractable == (Attractable { attraction_weight: ONE })
        &&& self.spawnable == (Spawnable { spawn_source: SpawnSource::Automatic })
        &&& self.audio_reactive == (AudioReactive {
            amplitude_sensitivity: 500_000,
            frequency_band: FrequencyBand::Mid,
            response_smoothing: 100_000,
        })
        &&& self.pulse_responder == (PulseResponder {
            pulse_phase: 0,
            pulse_amplitude: 0,
            decay_rate: 3_000_000,
            current_scale_modifier: ONE,
        })
        &&& self.sprite == (Sprite { color: Srgba::white(), custom_size: None })
        &&& self.transform == (Transform { translation: Vec2::zero(), scale: ONE })
        &&& self.visibility == Visibility::Hidden
    }

    /// A resting particle for slot `id`: inactive and hidden.
    pub fn new(id: u32) -> (r: ParticleBundle)
        ensures
            r.is_fresh(id),
    {
        ParticleBundle {
            particle: Particle { id },
            state: ParticleState::default(),
            visual: ParticleVisual::default(),
            motion: ParticleMotion::default(),
            behavior: ParticleBehavior::default(),
            trail: Trail::default(),
            trail_renderer: TrailRenderer::default(),
            mouse_influence: MouseInfluence::default(),
            attractable: Attractable::default(),
            spawnable: Spawnable::default(),
            audio_reactive: AudioReactive::default(),
            pulse_responder: PulseResponder::default(),
            sprite: Sprite::default(),
            transform: Transform::default(),
            visibility: Visibility::Hidden,
        }
    }
}

} // verus!
