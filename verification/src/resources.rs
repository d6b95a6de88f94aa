//! Singleton state of the simulation: act clock, palettes, audio analysis,
//! pointer state, the particle pool and the spawn queue.

use vstd::prelude::*;
use crate::color::Srgba;
use crate::fixed::Fixed;
use crate::types::{
    Act, BeatStrength, FalloffType, InteractionMode, ParticleBehaviorType, SpawnSource,
};
use crate::vector::Vec2;

verus! {

/// Where the experience stands on its timeline.
#[derive(Clone, Copy, Debug, PartialEq, Eq, Structural)]
pub struct ActState {
    /// The act in force; during a transition, the act being entered.
    pub current_act: Act,
    /// Progress within the current act, from 0 to 1.
    pub act_progress: Fixed,
    /// Seconds since the experience began.
    pub total_elapsed_seconds: Fixed,
    /// Whether a transition between acts is under way.
    pub is_transitioning: bool,
    /// Progress of the transition, from 0 to 1.
    pub transition_progress: Fixed,
}

impl Default for ActState {
    fn default() -> (r: ActState)
        ensures
            r == (ActState {
                current_act: Act::Emergence,
                act_progress: 0,
                total_elapsed_seconds: 0,
                is_transitioning: false,
                transition_progress: 0,
            }),
    {
        ActState {
            current_act: Act::Emergence,
            act_progress: 0,
            total_elapsed_seconds: 0,
            is_transitioning: false,
            transition_progress: 0,
        }
    }
}

/// Timing of the acts.
#[derive(Clone, Copy, Debug, PartialEq, Eq)]
pub struct ActTimings {
    /// Boundary timestamps in seconds: the five act starts, then the end.
    pub act_boundaries_seconds: [Fixed; 6],
    /// Duration of the blend between two acts in milliseconds.
    pub transition_duration_ms: Fixed,
}

impl ActTimings {
    /// Whether the timings are the standard ones: boundaries at 0, 3, 7, 10,
    /// 13 and 15 minutes and a two-second transition.
    pub open spec fn is_standard(&self) -> bool {
        &&& self.act_boundaries_seconds@ == seq![
            0 as Fixed,
            180_000_000,
            420_000_000,
            600_000_000,
            780_000_000,
            900_000_000,
        ]
        &&& self.transition_duration_ms == 2_000_000_000
    }
}

impl Default for ActTimings {
    fn default() -> (r: ActTimings)
        ensures
            r.is_standard(),
    {
        let r = ActTimings {
            act_boundaries_seconds: [
                0,
                180_000_000,
                420_000_000,
                600_000_000,
                780_000_000,
                900_000_000,
            ],
            transition_duration_ms: 2_000_000_000,
        };
        assert(r.act_boundaries_seconds@ =~= seq![
            0 as Fixed,
            180_000_000,
            420_000_000,
            600_000_000,
            780_000_000,
            900_000_000,
        ]);
        r
    }
}

/// Act-dependent values, blended during a transition.
#[derive(Clone, Copy, Debug, PartialEq, Eq, Structural)]
pub struct InterpolatedActValues {
    /// Start colour of the background gradient.
    pub background_color_start: Srgba,
    /// End colour of the background gradient.
    pub background_color_end: Srgba,
    /// Behavior given to new particles.
    pub particle_behavior: ParticleBehaviorType,
    /// Interaction mode in force.
    pub interaction_mode: InteractionMode,
    /// Saturation multiplier for particle colours.
    pub saturation_multiplier: Fixed,
    /// Target particle density.
    pub density_target: Fixed,
}

impl Default for InterpolatedActValues {
    fn default() -> (r: InterpolatedActValues)
        ensures
            r == (InterpolatedActValues {
                background_color_start: Srgba::rgb(102_000, 102_000, 180_000),
                background_color_end: Srgba::rgb(51_000, 51_000, 102_000),
                particle_behavior: ParticleBehaviorType::Drift,
                interaction_mode: InteractionMode::Paint,
                saturation_multiplier: 1_000_000,
                density_target: 300_000,
            }),
    {
        InterpolatedActValues {
            background_color_start: Srgba::rgb(102_000, 102_000, 180_000),
            background_color_end: Srgba::rgb(51_000, 51_000, 102_000),
            particle_behavior: ParticleBehaviorType::Drift,
            interaction_mode: InteractionMode::Paint,
            saturation_multiplier: 1_000_000,
            density_target: 300_000,
        }
    }
}

/// The master palette.
#[derive(Clone, Copy, Debug, PartialEq, Eq, Structural)]
pub struct ColorPalette {
    /// Deep navy blue (#1a1a2e).
    pub primary_initial: Srgba,
    /// Rich crimson (#c41e3a).
    pub primary_midpoint: Srgba,
    /// Warm cream (#fdf6f0).
    pub primary_final: Srgba,
    /// Cool charcoal (#2d3436).
    pub secondary_cool: Srgba,
    /// Warm sand (#d4a574).
    pub secondary_warm: Srgba,
    /// Ethereal off-white (#e8d5c4).
    pub secondary_ethereal: Srgba,
    /// Spark coral (#ff6b6b).
    pub accent_spark: Srgba,
    /// Deep violet (#6c5ce7).
    pub accent_deep: Srgba,
    /// Hope yellow (#ffeaa7).
    pub accent_hope: Srgba,
}

impl Default for ColorPalette {
    fn default() -> (r: ColorPalette)
        ensures
            r == (ColorPalette {
                primary_initial: Srgba::rgb(102_000, 102_000, 180_000),
                primary_midpoint: Srgba::rgb(769_000, 118_000, 227_000),
                primary_final: Srgba::rgb(992_000, 965_000, 941_000),
                secondary_cool: Srgba::rgb(176_000, 204_000, 212_000),
                secondary_warm: Srgba::rgb(831_000, 647_000, 455_000),
                secondary_ethereal: Srgba::rgb(910_000, 835_000, 769_000),
                accent_spark: Srgba::rgb(1_000_000, 420_000, 420_000),
                accent_deep: Srgba::rgb(424_000, 361_000, 906_000),
                accent_hope: Srgba::rgb(1_000_000, 918_000, 655_000),
            }),
    {
        ColorPalette {
            primary_initial: Srgba::rgb(102_000, 102_000, 180_000),
            primary_midpoint: Srgba::rgb(769_000, 118_000, 227_000),
            primary_final: Srgba::rgb(992_000, 965_000, 941_000),
            secondary_cool: Srgba::rgb(176_000, 204_000, 212_000),
            secondary_warm: Srgba::rgb(831_000, 647_000, 455_000),
            secondary_ethereal: Srgba::rgb(910_000, 835_000, 769_000),
            accent_spark: Srgba::rgb(1_000_000, 420_000, 420_000),
            accent_deep: Srgba::rgb(424_000, 361_000, 906_000),
            accent_hope: Srgba::rgb(1_000_000, 918_000, 655_000),
        }
    }
}

/// Background gradient of each act as a (start, end) colour pair.
#[derive(Clone, Copy, Debug, PartialEq, Eq)]
pub struct BackgroundGradients {
    /// Start colour of each act, by act index.
    pub gradient_starts: [Srgba; 5],
    /// End colour of each act, by act index.
    pub gradient_ends: [Srgba; 5],
}

impl BackgroundGradients {
    /// The standard start colour of an act's gradient.
    pub open spec fn standard_start(act: Act) -> Srgba {
        match act {
            Act::Emergence => Srgba::rgb(51_000, 51_000, 90_000),
            Act::Accumulation => Srgba::rgb(102_000, 102_000, 180_000),
            Act::Crescendo => Srgba::rgb(176_000, 141_000, 251_000),
            Act::Release => Srgba::rgb(384_000, 118_000, 196_000),
            Act::Transcendence => Srgba::rgb(584_000, 365_000, 259_000),
        }
    }

    /// The standard end colour of an act's gradient.
    pub open spec fn standard_end(act: Act) -> Srgba {
        match act {
            Act::Emergence => Srgba::rgb(102_000, 102_000, 180_000),
            Act::Accumulation => Srgba::rgb(176_000, 141_000, 251_000),
            Act::Crescendo => Srgba::rgb(384_000, 118_000, 196_000),
            Act::Release => Srgba::rgb(584_000, 365_000, 259_000),
            Act::Transcendence => Srgba::rgb(910_000, 835_000, 769_000),
        }
    }

    /// The start colour of `act`.
    pub open spec fn start_of(&self, act: Act) -> Srgba {
        self.gradient_starts@[act.index() as int]
    }

    /// The end colour of `act`.
    pub open spec fn end_of(&self, act: Act) -> Srgba {
        self.gradient_ends@[act.index() as int]
    }

    /// Whether every act has its standard gradient.
    pub open spec fn is_standard(&self) -> bool {
        forall|act: Act|
            #![trigger self.start_of(act)]
            #![trigger self.end_of(act)]
            self.start_of(act) == BackgroundGradients::standard_start(act) && self.end_of(act)
                == BackgroundGradients::standard_end(act)
    }
}

impl Default for BackgroundGradients {
    fn default() -> (r: BackgroundGradients)
        ensures
            r.is_standard(),
    {
        BackgroundGradients {
            gradient_starts: [
                Srgba::rgb(51_000, 51_000, 90_000),
                Srgba::rgb(102_000, 102_000, 180_000),
                Srgba::rgb(176_000, 141_000, 251_000),
                Srgba::rgb(384_000, 118_000, 196_000),
                Srgba::rgb(584_000, 365_000, 259_000),
            ],
            gradient_ends: [
                Srgba::rgb(102_000, 102_000, 180_000),
                Srgba::rgb(176_000, 141_000, 251_000),
                Srgba::rgb(384_000, 118_000, 196_000),
                Srgba::rgb(584_000, 365_000, 259_000),
                Srgba::rgb(910_000, 835_000, 769_000),
            ],
        }
    }
}

/// The background as currently shown.
#[derive(Clone, Copy, Debug, PartialEq, Eq, Structural)]
pub struct CurrentBackground {
    /// Current start colour.
    pub gradient_start: Srgba,
    /// Current end colour.
    pub gradient_end: Srgba,
    /// Strength of the audio-driven pulse, from 0 to 1.
    pub pulse_intensity: Fixed,
}

impl Default for CurrentBackground {
    fn default() -> (r: CurrentBackground)
        ensures
            r == (CurrentBackground {
                gradient_start: Srgba::rgb(51_000, 51_000, 90_000),
                gradient_end: Srgba::rgb(102_000, 102_000, 180_000),
                pulse_intensity: 0,
            }),
    {
        CurrentBackground {
            gradient_start: Srgba::rgb(51_000, 51_000, 90_000),
            gradient_end: Srgba::rgb(102_000, 102_000, 180_000),
            pulse_intensity: 0,
        }
    }
}

/// Audio levels of the current tick.
#[derive(Clone, Copy, Debug, PartialEq, Eq, Structural)]
pub struct AudioAnalysis {
    /// Low band amplitude.
    pub amplitude_low: Fixed,
    /// Mid band amplitude.
    pub amplitude_mid: Fixed,
    /// High band amplitude.
    pub amplitude_high: Fixed,
    /// Largest of the three amplitudes.
    pub amplitude_peak: Fixed,
    /// Bass energy.
    pub frequency_bass: Fixed,
    /// Mid energy.
    pub frequency_mid: Fixed,
    /// High energy.
    pub frequency_high: Fixed,
    /// Shimmer energy.
    pub frequency_shimmer: Fixed,
    /// Whether a beat fell on this tick.
    pub beat_detected: bool,
    /// Strength class of the peak amplitude.
    pub beat_strength: BeatStrength,
}

impl Default for AudioAnalysis {
    fn default() -> (r: AudioAnalysis)
        ensures
            r == (AudioAnalysis {
                amplitude_low: 0,
                amplitude_mid: 0,
                amplitude_high: 0,
                amplitude_peak: 0,
                frequency_bass: 0,
                frequency_mid: 0,
                frequency_high: 0,
                frequency_shimmer: 0,
                beat_detected: false,
                beat_strength: BeatStrength::Silence,
            }),
    {
        AudioAnalysis {
            amplitude_low: 0,
            amplitude_mid: 0,
            amplitude_high: 0,
            amplitude_peak: 0,
            frequency_bass: 0,
            frequency_mid: 0,
            frequency_high: 0,
            frequency_shimmer: 0,
            beat_detected: false,
            beat_strength: BeatStrength::Silence,
        }
    }
}

/// Output ranges of the audio-to-visual mappings, each as (min, max).
#[derive(Clone, Copy, Debug, PartialEq, Eq)]
pub struct AudioVisualMapping {
    /// Amplitude to opacity.
    pub amplitude_to_opacity_range: (Fixed, Fixed),
    /// Amplitude to saturation.
    pub amplitude_to_saturation_range: (Fixed, Fixed),
    /// Amplitude to scale.
    pub amplitude_to_scale_range: (Fixed, Fixed),
    /// Amplitude to bloom contribution.
    pub amplitude_to_bloom_range: (Fixed, Fixed),
    /// Mid energy to spawn rate in particles per second.
    pub frequency_to_spawn_rate_range: (Fixed, Fixed),
    /// Shimmer energy to hue shift in degrees.
    pub frequency_to_hue_shift_range: (Fixed, Fixed),
}

impl Default for AudioVisualMapping {
    fn default() -> (r: AudioVisualMapping)
        ensures
            r == (AudioVisualMapping {
                amplitude_to_opacity_range: (300_000, 600_000),
                amplitude_to_saturation_range: (400_000, 1_000_000),
                amplitude_to_scale_range: (1_000_000, 2_500_000),
                amplitude_to_bloom_range: (0, 800_000),
                frequency_to_spawn_rate_range: (4_000_000, 40_000_000),
                frequency_to_hue_shift_range: (-5_000_000 as Fixed, 5_000_000),
            }),
    {
        AudioVisualMapping {
            amplitude_to_opacity_range: (300_000, 600_000),
            amplitude_to_saturation_range: (400_000, 1_000_000),
            amplitude_to_scale_range: (1_000_000, 2_500_000),
            amplitude_to_bloom_range: (0, 800_000),
            frequency_to_spawn_rate_range: (4_000_000, 40_000_000),
            frequency_to_hue_shift_range: (-5_000_000 as Fixed, 5_000_000),
        }
    }
}

/// Volume state of the ambient loop.
#[derive(Clone, Copy, Debug, PartialEq, Eq, Structural)]
pub struct AmbientAudioState {
    /// Whether the host currently plays the loop.
    pub is_playing: bool,
    /// Current volume, from 0 to 1.
    pub current_volume: Fixed,
    /// Volume that the current one moves toward.
    pub target_volume: Fixed,
    /// Volume at full particle count.
    pub max_volume: Fixed,
    /// Active particles below which the loop is silent.
    pub particle_threshold: u32,
    /// Active particles at which the loop is at full volume.
    pub particle_full_volume: u32,
}

impl Default for AmbientAudioState {
    fn default() -> (r: AmbientAudioState)
        ensures
            r == (AmbientAudioState {
                is_playing: false,
                current_volume: 0,
                target_volume: 0,
                max_volume: 700_000,
                particle_threshold: 5,
                particle_full_volume: 50,
            }),
    {
        AmbientAudioState {
            is_playing: false,
            current_volume: 0,
            target_volume: 0,
            max_volume: 700_000,
            particle_threshold: 5,
            particle_full_volume: 50,
        }
    }
}

/// Pointer state in world coordinates.
#[derive(Clone, Copy, Debug, PartialEq, Eq, Structural)]
pub struct MouseState {
    /// Pointer position.
    pub position: Vec2,
    /// Smoothed pointer velocity in units per second.
    pub velocity: Vec2,
    /// Whether the pointer is present.
    pub is_active: bool,
    /// Engagement time in seconds, weighted by speed.
    pub accumulated_interaction: Fixed,
}

impl Default for MouseState {
    fn default() -> (r: MouseState)
        ensures
            r == (MouseState {
                position: Vec2::zero(),
                velocity: Vec2::zero(),
                is_active: false,
                accumulated_interaction: 0,
            }),
    {
        MouseState {
            position: Vec2::zero(),
            velocity: Vec2::zero(),
            is_active: false,
            accumulated_interaction: 0,
        }
    }
}

/// Reach of the pointer.
#[derive(Clone, Copy, Debug, PartialEq, Eq, Structural)]
pub struct InteractionConfig {
    /// Radius at the start of engagement.
    pub base_radius: Fixed,
    /// Radius after sustained engagement.
    pub max_radius: Fixed,
    /// Radius in force.
    pub current_radius: Fixed,
    /// How influence weakens with distance.
    pub falloff_type: FalloffType,
}

impl Default for InteractionConfig {
    fn default() -> (r: InteractionConfig)
        ensures
            r == (InteractionConfig {
                base_radius: 80_000_000,
                max_radius: 200_000_000,
                current_radius: 80_000_000,
                falloff_type: FalloffType::Quadratic,
            }),
    {
        InteractionConfig {
            base_radius: 80_000_000,
            max_radius: 200_000_000,
            current_radius: 80_000_000,
            falloff_type: FalloffType::Quadratic,
        }
    }
}

/// The interaction mode in force.
#[derive(Clone, Copy, Debug, PartialEq, Eq, Structural)]
pub struct CurrentInteractionMode {
    /// Active mode.
    pub mode: InteractionMode,
}

impl Default for CurrentInteractionMode {
    fn default() -> (r: CurrentInteractionMode)
        ensures
            r == (CurrentInteractionMode {
                mode: InteractionMode::Paint,
            }),
    {
        CurrentInteractionMode {
            mode: InteractionMode::Paint,
        }
    }
}

/// Stack of free particle slots with the pool's counters.
#[derive(Clone, Debug, PartialEq, Eq)]
pub struct ParticlePool {
    /// Slot indices that are free, topmost last.
    pub available_entities: Vec<u32>,
    /// Number of particles in use.
    pub active_count: u32,
    /// Number of slots in the pool.
    pub pool_capacity: u32,
    /// Largest number of particles in use at the same time.
    pub max_active: u32,
}

impl ParticlePool {
    /// The counters balance: every slot is either in use or on the stack,
    /// and the number in use respects the ceiling.
    pub open spec fn balanced(&self) -> bool {
        &&& self.active_count + self.available_entities@.len() == self.pool_capacity
        &&& self.active_count <= self.max_active
        &&& self.max_active <= self.pool_capacity
    }
}

impl Default for ParticlePool {
    /// The standard pool with nothing in use: fifteen thousand slots, all
    /// of them on the free stack in rising order, and a ceiling of ten
    /// thousand.
    fn default() -> (r: ParticlePool)
        ensures
            r.balanced(),
            r.pool_capacity == 15000,
            r.max_active == 10000,
            r.active_count == 0,
            r.available_entities@ == Seq::new(15000, |i: int| i as u32),
    {
        let mut available: Vec<u32> = Vec::new();
        let mut id: u32 = 0;
        while id < 15000
            invariant
                id <= 15000,
                available@ == Seq::new(id as nat, |i: int| i as u32),
            decreases 15000 - id,
        {
            available.push(id);
            assert(available@ =~= Seq::new((id + 1) as nat, |i: int| i as u32));
            id = id + 1;
        }
        ParticlePool {
            available_entities: available,
            active_count: 0,
            pool_capacity: 15000,
            max_active: 10000,
        }
    }
}

/// A request to bring one particle to life.
#[derive(Clone, Copy, Debug, PartialEq, Eq, Structural)]
pub struct ParticleSpawnRequest {
    /// Where the particle appears.
    pub position: Vec2,
    /// Its velocity at birth.
    pub initial_velocity: Vec2,
    /// Its base colour.
    pub color: Srgba,
    /// Its lifetime in milliseconds.
    pub lifetime_ms: Fixed,
    /// Which producer asked.
    pub source: SpawnSource,
}

impl Default for ParticleSpawnRequest {
    fn default() -> (r: ParticleSpawnRequest)
        ensures
            r == (ParticleSpawnRequest {
                position: Vec2::zero(),
                initial_velocity: Vec2::zero(),
                color: Srgba::white(),
                lifetime_ms: 5_000_000_000,
                source: SpawnSource::Automatic,
            }),
    {
        ParticleSpawnRequest {
            position: Vec2::zero(),
            initial_velocity: Vec2::zero(),
            color: Srgba::white(),
            lifetime_ms: 5_000_000_000,
            source: SpawnSource::Automatic,
        }
    }
}

/// Requests collected from all producers during one tick.
#[derive(Clone, Debug, PartialEq, Eq)]
pub struct ParticleSpawnQueue {
    /// Requests waiting for the consumer.
    pub pending_spawns: Vec<ParticleSpawnRequest>,
    /// Audio-driven spawn rate in particles per second.
    pub spawn_rate_per_second: Fixed,
    /// Time not yet turned into pointer spawns, in seconds.
    pub spawn_accumulator: Fixed,
}

impl Default for ParticleSpawnQueue {
    fn default() -> (r: ParticleSpawnQueue)
        ensures
            r.pending_spawns@ == Seq::<ParticleSpawnRequest>::empty(),
            r.spawn_rate_per_second == 10_000_000,
            r.spawn_accumulator == 0,
    {
        ParticleSpawnQueue {
            pending_spawns: Vec::new(),
            spawn_rate_per_second: 10_000_000,
            spawn_accumulator: 0,
        }
    }
}

/// Parameters handed to the post-processing effects.
#[derive(Clone, Copy, Debug, PartialEq, Eq, Structural)]
pub struct PostProcessSettings {
    /// Luminance above which pixels bloom.
    pub bloom_threshold: Fixed,
    /// Bloom intensity.
    pub bloom_intensity: Fixed,
    /// Bloom blur radius in pixels.
    pub bloom_radius: Fixed,
    /// Colour channel separation.
    pub chromatic_aberration_strength: Fixed,
    /// Darkness at the edges.
    pub vignette_intensity: Fixed,
    /// Amount of grain noise.
    pub film_grain_amount: Fixed,
}

impl Default for PostProcessSettings {
    fn default() -> (r: PostProcessSettings)
        ensures
            r == (PostProcessSettings {
                bloom_threshold: 700_000,
                bloom_intensity: 300_000,
                bloom_radius: 8_000_000,
                chromatic_aberration_strength: 0,
                vignette_intensity: 300_000,
                film_grain_amount: 20_000,
            }),
    {
        PostProcessSettings {
            bloom_threshold: 700_000,
            bloom_intensity: 300_000,
            bloom_radius: 8_000_000,
            chromatic_aberration_strength: 0,
            vignette_intensity: 300_000,
            film_grain_amount: 20_000,
        }
    }
}

/// Rhythm and transition durations.
#[derive(Clone, Copy, Debug, PartialEq, Eq, Structural)]
pub struct MotionTiming {
    /// Base rhythm in beats per minute.
    pub base_rhythm_bpm: Fixed,
    /// Current rhythm in beats per minute.
    pub current_rhythm_bpm: Fixed,
    /// Duration of fast transitions in milliseconds.
    pub transition_duration_ms: Fixed,
    /// Duration of slow transitions in milliseconds.
    pub slow_transition_duration_ms: Fixed,
}

impl Default for MotionTiming {
    fn default() -> (r: MotionTiming)
        ensures
            r == (MotionTiming {
                base_rhythm_bpm: 60_000_000,
                current_rhythm_bpm: 60_000_000,
                transition_duration_ms: 800_000_000,
                slow_transition_duration_ms: 2_000_000_000,
            }),
    {
        MotionTiming {
            base_rhythm_bpm: 60_000_000,
            current_rhythm_bpm: 60_000_000,
            transition_duration_ms: 800_000_000,
            slow_transition_duration_ms: 2_000_000_000,
        }
    }
}

/// Frame timing as measured by the host.
#[derive(Clone, Copy, Debug, PartialEq, Eq, Structural)]
pub struct PerformanceMetrics {
    /// Frames per second.
    pub current_fps: Fixed,
    /// Last frame time in milliseconds.
    pub frame_time_ms: Fixed,
    /// Time spent updating particles in milliseconds.
    pub particle_update_time_ms: Fixed,
    /// Time spent rendering in milliseconds.
    pub render_time_ms: Fixed,
}

impl Default for PerformanceMetrics {
    fn default() -> (r: PerformanceMetrics)
        ensures
            r == (PerformanceMetrics {
                current_fps: 60_000_000,
                frame_time_ms: 16_670_000,
                particle_update_time_ms: 0,
                render_time_ms: 0,
            }),
    {
        PerformanceMetrics {
            current_fps: 60_000_000,
            frame_time_ms: 16_670_000,
            particle_update_time_ms: 0,
            render_time_ms: 0,
        }
    }
}

} // verus!
