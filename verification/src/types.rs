//! Core enumerations and timing constants of the five-act experience.

use vstd::prelude::*;
use crate::fixed::{Fixed, fx_sub, fx_div, fx_mul, fx_max, ONE};

verus! {

/// Total duration of the experience in seconds (15 minutes).
pub const TOTAL_DURATION_SECONDS: Fixed = 900_000_000;

/// Act boundary timestamps in seconds: the start of each of the five acts,
/// then the end of the experience.
pub const ACT_BOUNDARIES_SECONDS: [Fixed; 6] = [
    0,
    180_000_000,
    420_000_000,
    600_000_000,
    780_000_000,
    900_000_000,
];

/// Default transition duration between acts in milliseconds.
pub const TRANSITION_DURATION_MS: Fixed = 2_000_000_000;

/// The five acts of the narrative, in order.
#[derive(Clone, Copy, Debug, PartialEq, Eq, Hash, Structural)]
pub enum Act {
    /// Act I (0-3 min): sparse particles drift slowly.
    Emergence,
    /// Act II (3-7 min): particles gather around the viewer.
    Accumulation,
    /// Act III (7-10 min): peak density and intensity.
    Crescendo,
    /// Act IV (10-13 min): particles disperse upward.
    Release,
    /// Act V (13-15 min): weightless luminosity.
    Transcendence,
}

impl Default for Act {
    fn default() -> (r: Act)
        ensures
            r == Act::Emergence,
    {
        Act::Emergence
    }
}

/// How particles move; one behavior per act.
#[derive(Clone, Copy, Debug, PartialEq, Eq, Hash, Structural)]
pub enum ParticleBehaviorType {
    /// Slow, aimless movement.
    Drift,
    /// Attraction toward a common center.
    Swarm,
    /// Circling around a focal point.
    Orbit,
    /// Rising upward and spreading outward.
    Disperse,
    /// Weightless, nearly force-free movement.
    Float,
}

impl Default for ParticleBehaviorType {
    fn default() -> (r: ParticleBehaviorType)
        ensures
            r == ParticleBehaviorType::Drift,
    {
        ParticleBehaviorType::Drift
    }
}

/// How the pointer affects particles; one mode per act.
#[derive(Clone, Copy, Debug, PartialEq, Eq, Hash, Structural)]
pub enum InteractionMode {
    /// The pointer exerts no force.
    Paint,
    /// Particles are drawn toward the pointer.
    Attract,
    /// Particles near the pointer grow and saturate.
    Intensify,
    /// Particles are pushed away from the pointer.
    Disperse,
    /// A travelling wave spreads from the pointer.
    Ripple,
}

impl Default for InteractionMode {
    fn default() -> (r: InteractionMode)
        ensures
            r == InteractionMode::Paint,
    {
        InteractionMode::Paint
    }
}

/// The strength class of a detected beat.
#[derive(Clone, Copy, Debug, PartialEq, Eq, Hash, Structural)]
pub enum BeatStrength {
    /// No beat.
    Silence,
    /// A gentle pulse.
    Soft,
    /// A medium beat that spawns a ring.
    Medium,
    /// A strong beat that spawns a burst.
    Strong,
}

impl Default for BeatStrength {
    fn default() -> (r: BeatStrength)
        ensures
            r == BeatStrength::Silence,
    {
        BeatStrength::Silence
    }
}

/// Audio frequency bands, from low to high.
#[derive(Clone, Copy, Debug, PartialEq, Eq, Hash, Structural)]
pub enum FrequencyBand {
    /// 20-250 Hz.
    Bass,
    /// 250-2000 Hz.
    Mid,
    /// 2000-8000 Hz.
    High,
    /// 8000-20000 Hz.
    Shimmer,
}

impl Default for FrequencyBand {
    fn default() -> (r: FrequencyBand)
        ensures
            r == FrequencyBand::Bass,
    {
        FrequencyBand::Bass
    }
}

/// Which producer asked for a particle.
#[derive(Clone, Copy, Debug, PartialEq, Eq, Hash, Structural)]
pub enum SpawnSource {
    /// Pointer or touch movement.
    Mouse,
    /// A detected beat.
    Beat,
    /// Ambient, time-driven spawning.
    Automatic,
}

impl Default for SpawnSource {
    fn default() -> (r: SpawnSource)
        ensures
            r == SpawnSource::Automatic,
    {
        SpawnSource::Automatic
    }
}

/// How influence weakens with distance.
#[derive(Clone, Copy, Debug, PartialEq, Eq, Hash, Structural)]
pub enum FalloffType {
    /// `1 - d / max`.
    Linear,
    /// `1 - (d / max)^2`.
    Quadratic,
    /// `e^(-3 d / max)`.
    Exponential,
}

impl Default for FalloffType {
    fn default() -> (r: FalloffType)
        ensures
            r == FalloffType::Quadratic,
    {
        FalloffType::Quadratic
    }
}

impl Act {
    /// The zero-based position of this act (0 to 4).
    pub open spec fn index_spec(&self) -> usize {
        match self {
            Act::Emergence => 0,
            Act::Accumulation => 1,
            Act::Crescendo => 2,
            Act::Release => 3,
            Act::Transcendence => 4,
        }
    }

    /// The zero-based position of this act (0 to 4).
    #[verifier::when_used_as_spec(index_spec)]
    pub fn index(&self) -> (r: usize)
        ensures
            r == self.index_spec(),
    {
        match self {
            Act::Emergence => 0,
            Act::Accumulation => 1,
            Act::Crescendo => 2,
            Act::Release => 3,
            Act::Transcendence => 4,
        }
    }

    /// The time at which this act starts, in seconds.
    pub open spec fn start_seconds_spec(&self) -> Fixed {
        match self {
            Act::Emergence => 0,
            Act::Accumulation => 180_000_000,
            Act::Crescendo => 420_000_000,
            Act::Release => 600_000_000,
            Act::Transcendence => 780_000_000,
        }
    }

    /// The time at which this act starts, in seconds.
    #[verifier::when_used_as_spec(start_seconds_spec)]
    pub fn start_seconds(&self) -> (r: Fixed)
        ensures
            r == self.start_seconds_spec(),
    {
        match self {
            Act::Emergence => 0,
            Act::Accumulation => 180_000_000,
            Act::Crescendo => 420_000_000,
            Act::Release => 600_000_000,
            Act::Transcendence => 780_000_000,
        }
    }

    /// The time at which this act ends, in seconds.
    pub open spec fn end_seconds_spec(&self) -> Fixed {
        match self {
            Act::Emergence => 180_000_000,
            Act::Accumulation => 420_000_000,
            Act::Crescendo => 600_000_000,
            Act::Release => 780_000_000,
            Act::Transcendence => 900_000_000,
        }
    }

    /// The time at which this act ends, in seconds.
    #[verifier::when_used_as_spec(end_seconds_spec)]
    pub fn end_seconds(&self) -> (r: Fixed)
        ensures
            r == self.end_seconds_spec(),
    {
        match self {
            Act::Emergence => 180_000_000,
            Act::Accumulation => 420_000_000,
            Act::Crescendo => 600_000_000,
            Act::Release => 780_000_000,
            Act::Transcendence => 900_000_000,
        }
    }

    /// How long this act lasts, in seconds.
    pub open spec fn duration_seconds_spec(&self) -> Fixed {
        match self {
            Act::Emergence => 180_000_000,
            Act::Accumulation => 240_000_000,
            Act::Crescendo => 180_000_000,
            Act::Release => 180_000_000,
            Act::Transcendence => 120_000_000,
        }
    }

    /// How long this act lasts, in seconds.
    #[verifier::when_used_as_spec(duration_seconds_spec)]
    pub fn duration_seconds(&self) -> (r: Fixed)
        ensures
            r == self.duration_seconds_spec(),
    {
        match self {
            Act::Emergence => 180_000_000,
            Act::Accumulation => 240_000_000,
            Act::Crescendo => 180_000_000,
            Act::Release => 180_000_000,
            Act::Transcendence => 120_000_000,
        }
    }

    /// The act that follows this one, or `None` after the last.
    pub open spec fn next_spec(&self) -> Option<Act> {
        match self {
            Act::Emergence => Some(Act::Accumulation),
            Act::Accumulation => Some(Act::Crescendo),
            Act::Crescendo => Some(Act::Release),
            Act::Release => Some(Act::Transcendence),
            Act::Transcendence => None,
        }
    }

    /// The act that follows this one, or `None` after the last.
    #[verifier::when_used_as_spec(next_spec)]
    pub fn next(&self) -> (r: Option<Act>)
        ensures
            r == self.next_spec(),
    {
        match self {
            Act::Emergence => Some(Act::Accumulation),
            Act::Accumulation => Some(Act::Crescendo),
            Act::Crescendo => Some(Act::Release),
            Act::Release => Some(Act::Transcendence),
            Act::Transcendence => None,
        }
    }

    /// The act before this one, or `None` before the first.
    pub open spec fn previous_spec(&self) -> Option<Act> {
        match self {
            Act::Emergence => None,
            Act::Accumulation => Some(Act::Emergence),
            Act::Crescendo => Some(Act::Accumulation),
            Act::Release => Some(Act::Crescendo),
            Act::Transcendence => Some(Act::Release),
        }
    }

    /// The act before this one, or `None` before the first.
    #[verifier::when_used_as_spec(previous_spec)]
    pub fn previous(&self) -> (r: Option<Act>)
        ensures
            r == self.previous_spec(),
    {
        match self {
            Act::Emergence => None,
            Act::Accumulation => Some(Act::Emergence),
            Act::Crescendo => Some(Act::Accumulation),
            Act::Release => Some(Act::Crescendo),
            Act::Transcendence => Some(Act::Release),
        }
    }

    /// The particle behavior that belongs to this act.
    pub open spec fn default_behavior_spec(&self) -> ParticleBehaviorType {
        match self {
            Act::Emergence => ParticleBehaviorType::Drift,
            Act::Accumulation => ParticleBehaviorType::Swarm,
            Act::Crescendo => ParticleBehaviorType::Orbit,
            Act::Release => ParticleBehaviorType::Disperse,
            Act::Transcendence => ParticleBehaviorType::Float,
        }
    }

    /// The particle behavior that belongs to this act.
    #[verifier::when_used_as_spec(default_behavior_spec)]
    pub fn default_behavior(&self) -> (r: ParticleBehaviorType)
        ensures
            r == self.default_behavior_spec(),
    {
        match self {
            Act::Emergence => ParticleBehaviorType::Drift,
            Act::Accumulation => ParticleBehaviorType::Swarm,
            Act::Crescendo => ParticleBehaviorType::Orbit,
            Act::Release => ParticleBehaviorType::Disperse,
            Act::Transcendence => ParticleBehaviorType::Float,
        }
    }

    /// The interaction mode that belongs to this act.
    pub open spec fn default_interaction_mode_spec(&self) -> InteractionMode {
        match self {
            Act::Emergence => InteractionMode::Paint,
            Act::Accumulation => InteractionMode::Attract,
            Act::Crescendo => InteractionMode::Intensify,
            Act::Release => InteractionMode::Disperse,
            Act::Transcendence => InteractionMode::Ripple,
        }
    }

    /// The interaction mode that belongs to this act.
    #[verifier::when_used_as_spec(default_interaction_mode_spec)]
    pub fn default_interaction_mode(&self) -> (r: InteractionMode)
        ensures
            r == self.default_interaction_mode_spec(),
    {
        match self {
            Act::Emergence => InteractionMode::Paint,
            Act::Accumulation => InteractionMode::Attract,
            Act::Crescendo => InteractionMode::Intensify,
            Act::Release => InteractionMode::Disperse,
            Act::Transcendence => InteractionMode::Ripple,
        }
    }

    /// Whether this is the last act.
    pub open spec fn is_final_spec(&self) -> bool {
        match self {
            Act::Emergence => false,
            Act::Accumulation => false,
            Act::Crescendo => false,
            Act::Release => false,
            Act::Transcendence => true,
        }
    }

    /// Whether this is the last act.
    #[verifier::when_used_as_spec(is_final_spec)]
    pub fn is_final(&self) -> (r: bool)
        ensures
            r == self.is_final_spec(),
    {
        match self {
            Act::Emergence => false,
            Act::Accumulation => false,
            Act::Crescendo => false,
            Act::Release => false,
            Act::Transcendence => true,
        }
    }

}

impl ParticleBehaviorType {
    /// The base speed multiplier of this behavior.
    pub open spec fn base_speed_multiplier_spec(&self) -> Fixed {
        match self {
            ParticleBehaviorType::Drift => 300_000,
            ParticleBehaviorType::Swarm => 700_000,
            ParticleBehaviorType::Orbit => 1_000_000,
            ParticleBehaviorType::Disperse => 1_200_000,
            ParticleBehaviorType::Float => 400_000,
        }
    }

    /// The base speed multiplier of this behavior.
    #[verifier::when_used_as_spec(base_speed_multiplier_spec)]
    pub fn base_speed_multiplier(&self) -> (r: Fixed)
        ensures
            r == self.base_speed_multiplier_spec(),
    {
        match self {
            ParticleBehaviorType::Drift => 300_000,
            ParticleBehaviorType::Swarm => 700_000,
            ParticleBehaviorType::Orbit => 1_000_000,
            ParticleBehaviorType::Disperse => 1_200_000,
            ParticleBehaviorType::Float => 400_000,
        }
    }

    /// The per-frame velocity retention of this behavior at 60 frames per second.
    pub open spec fn base_drag_spec(&self) -> Fixed {
        match self {
            ParticleBehaviorType::Drift => 980_000,
            ParticleBehaviorType::Swarm => 950_000,
            ParticleBehaviorType::Orbit => 920_000,
            ParticleBehaviorType::Disperse => 960_000,
            ParticleBehaviorType::Float => 990_000,
        }
    }

    /// The per-frame velocity retention of this behavior at 60 frames per second.
    #[verifier::when_used_as_spec(base_drag_spec)]
    pub fn base_drag(&self) -> (r: Fixed)
        ensures
            r == self.base_drag_spec(),
    {
        match self {
            ParticleBehaviorType::Drift => 980_000,
            ParticleBehaviorType::Swarm => 950_000,
            ParticleBehaviorType::Orbit => 920_000,
            ParticleBehaviorType::Disperse => 960_000,
            ParticleBehaviorType::Float => 990_000,
        }
    }

    /// The turbulence strength of this behavior.
    pub open spec fn turbulence_strength_spec(&self) -> Fixed {
        match self {
            ParticleBehaviorType::Drift => 500_000,
            ParticleBehaviorType::Swarm => 300_000,
            ParticleBehaviorType::Orbit => 200_000,
            ParticleBehaviorType::Disperse => 600_000,
            ParticleBehaviorType::Float => 400_000,
        }
    }

    /// The turbulence strength of this behavior.
    #[verifier::when_used_as_spec(turbulence_strength_spec)]
    pub fn turbulence_strength(&self) -> (r: Fixed)
        ensures
            r == self.turbulence_strength_spec(),
    {
        match self {
            ParticleBehaviorType::Drift => 500_000,
            ParticleBehaviorType::Swarm => 300_000,
            ParticleBehaviorType::Orbit => 200_000,
            ParticleBehaviorType::Disperse => 600_000,
            ParticleBehaviorType::Float => 400_000,
        }
    }

}

impl InteractionMode {
    /// The signed force multiplier of this mode.
    pub open spec fn force_multiplier_spec(&self) -> Fixed {
        match self {
            InteractionMode::Paint => 0,
            InteractionMode::Attract => 1_000_000,
            InteractionMode::Intensify => 500_000,
            InteractionMode::Disperse => -800_000 as Fixed,
            InteractionMode::Ripple => 300_000,
        }
    }

    /// The signed force multiplier of this mode.
    #[verifier::when_used_as_spec(force_multiplier_spec)]
    pub fn force_multiplier(&self) -> (r: Fixed)
        ensures
            r == self.force_multiplier_spec(),
    {
        match self {
            InteractionMode::Paint => 0,
            InteractionMode::Attract => 1_000_000,
            InteractionMode::Intensify => 500_000,
            InteractionMode::Disperse => -800_000 as Fixed,
            InteractionMode::Ripple => 300_000,
        }
    }

    /// Whether this mode is the painting mode.
    pub open spec fn spawns_particles_spec(&self) -> bool {
        match self {
            InteractionMode::Paint => true,
            InteractionMode::Attract => false,
            InteractionMode::Intensify => false,
            InteractionMode::Disperse => false,
            InteractionMode::Ripple => false,
        }
    }

    /// Whether this mode is the painting mode.
    #[verifier::when_used_as_spec(spawns_particles_spec)]
    pub fn spawns_particles(&self) -> (r: bool)
        ensures
            r == self.spawns_particles_spec(),
    {
        match self {
            InteractionMode::Paint => true,
            InteractionMode::Attract => false,
            InteractionMode::Intensify => false,
            InteractionMode::Disperse => false,
            InteractionMode::Ripple => false,
        }
    }

    /// Whether this mode changes how particles look.
    pub open spec fn affects_visuals_spec(&self) -> bool {
        match self {
            InteractionMode::Paint => false,
            InteractionMode::Attract => false,
            InteractionMode::Intensify => true,
            InteractionMode::Disperse => false,
            InteractionMode::Ripple => true,
        }
    }

    /// Whether this mode changes how particles look.
    #[verifier::when_used_as_spec(affects_visuals_spec)]
    pub fn affects_visuals(&self) -> (r: bool)
        ensures
            r == self.affects_visuals_spec(),
    {
        match self {
            InteractionMode::Paint => false,
            InteractionMode::Attract => false,
            InteractionMode::Intensify => true,
            InteractionMode::Disperse => false,
            InteractionMode::Ripple => true,
        }
    }

}

impl BeatStrength {
    /// The spawn count multiplier of this strength.
    pub open spec fn spawn_multiplier_spec(&self) -> Fixed {
        match self {
            BeatStrength::Silence => 0,
            BeatStrength::Soft => 1_000_000,
            BeatStrength::Medium => 3_000_000,
            BeatStrength::Strong => 8_000_000,
        }
    }

    /// The spawn count multiplier of this strength.
    #[verifier::when_used_as_spec(spawn_multiplier_spec)]
    pub fn spawn_multiplier(&self) -> (r: Fixed)
        ensures
            r == self.spawn_multiplier_spec(),
    {
        match self {
            BeatStrength::Silence => 0,
            BeatStrength::Soft => 1_000_000,
            BeatStrength::Medium => 3_000_000,
            BeatStrength::Strong => 8_000_000,
        }
    }

    /// The pulse intensity of this strength.
    pub open spec fn pulse_intensity_spec(&self) -> Fixed {
        match self {
            BeatStrength::Silence => 0,
            BeatStrength::Soft => 200_000,
            BeatStrength::Medium => 500_000,
            BeatStrength::Strong => 1_000_000,
        }
    }

    /// The pulse intensity of this strength.
    #[verifier::when_used_as_spec(pulse_intensity_spec)]
    pub fn pulse_intensity(&self) -> (r: Fixed)
        ensures
            r == self.pulse_intensity_spec(),
    {
        match self {
            BeatStrength::Silence => 0,
            BeatStrength::Soft => 200_000,
            BeatStrength::Medium => 500_000,
            BeatStrength::Strong => 1_000_000,
        }
    }

    /// Whether a beat of this strength spawns particles.
    pub open spec fn should_spawn_spec(&self) -> bool {
        match self {
            BeatStrength::Silence => false,
            BeatStrength::Soft => true,
            BeatStrength::Medium => true,
            BeatStrength::Strong => true,
        }
    }

    /// Whether a beat of this strength spawns particles.
    #[verifier::when_used_as_spec(should_spawn_spec)]
    pub fn should_spawn(&self) -> (r: bool)
        ensures
            r == self.should_spawn_spec(),
    {
        match self {
            BeatStrength::Silence => false,
            BeatStrength::Soft => true,
            BeatStrength::Medium => true,
            BeatStrength::Strong => true,
        }
    }

}

impl FrequencyBand {
    /// The frequency range of this band in Hz, as (min, max).
    pub open spec fn frequency_range_hz_spec(&self) -> (Fixed, Fixed) {
        match self {
            FrequencyBand::Bass => (20_000_000, 250_000_000),
            FrequencyBand::Mid => (250_000_000, 2_000_000_000),
            FrequencyBand::High => (2_000_000_000, 8_000_000_000),
            FrequencyBand::Shimmer => (8_000_000_000, 20_000_000_000),
        }
    }

    /// The frequency range of this band in Hz, as (min, max).
    #[verifier::when_used_as_spec(frequency_range_hz_spec)]
    pub fn frequency_range_hz(&self) -> (r: (Fixed, Fixed))
        ensures
            r == self.frequency_range_hz_spec(),
    {
        match self {
            FrequencyBand::Bass => (20_000_000, 250_000_000),
            FrequencyBand::Mid => (250_000_000, 2_000_000_000),
            FrequencyBand::High => (2_000_000_000, 8_000_000_000),
            FrequencyBand::Shimmer => (8_000_000_000, 20_000_000_000),
        }
    }

}

impl SpawnSource {
    /// The lifetime multiplier for particles from this source.
    pub open spec fn lifetime_multiplier_spec(&self) -> Fixed {
        match self {
            SpawnSource::Mouse => 1_200_000,
            SpawnSource::Beat => 800_000,
            SpawnSource::Automatic => 1_000_000,
        }
    }

    /// The lifetime multiplier for particles from this source.
    #[verifier::when_used_as_spec(lifetime_multiplier_spec)]
    pub fn lifetime_multiplier(&self) -> (r: Fixed)
        ensures
            r == self.lifetime_multiplier_spec(),
    {
        match self {
            SpawnSource::Mouse => 1_200_000,
            SpawnSource::Beat => 800_000,
            SpawnSource::Automatic => 1_000_000,
        }
    }

    /// Whether particles from this source leave a trail.
    pub open spec fn has_trail_spec(&self) -> bool {
        match self {
            SpawnSource::Mouse => true,
            SpawnSource::Beat => true,
            SpawnSource::Automatic => false,
        }
    }

    /// Whether particles from this source leave a trail.
    #[verifier::when_used_as_spec(has_trail_spec)]
    pub fn has_trail(&self) -> (r: bool)
        ensures
            r == self.has_trail_spec(),
    {
        match self {
            SpawnSource::Mouse => true,
            SpawnSource::Beat => true,
            SpawnSource::Automatic => false,
        }
    }

}

impl Act {
    /// The act whose time window holds `elapsed`: the first act before the
    /// timeline starts, the last act from its start onward without end.
    pub open spec fn from_elapsed_seconds_spec(elapsed: Fixed) -> Act {
        if elapsed < ACT_BOUNDARIES_SECONDS[1] {
            Act::Emergence
        } else if elapsed < ACT_BOUNDARIES_SECONDS[2] {
            Act::Accumulation
        } else if elapsed < ACT_BOUNDARIES_SECONDS[3] {
            Act::Crescendo
        } else if elapsed < ACT_BOUNDARIES_SECONDS[4] {
            Act::Release
        } else {
            Act::Transcendence
        }
    }

    /// The act for an elapsed time in seconds. Times before the start give
    /// the first act and times past the end give the last.
    #[verifier::when_used_as_spec(from_elapsed_seconds_spec)]
    pub fn from_elapsed_seconds(elapsed: Fixed) -> (r: Act)
        ensures
            r == Act::from_elapsed_seconds_spec(elapsed),
            r.start_seconds() <= elapsed || r == Act::Emergence,
            elapsed < r.end_seconds() || r == Act::Transcendence,
    {
        if elapsed < ACT_BOUNDARIES_SECONDS[1] {
            Act::Emergence
        } else if elapsed < ACT_BOUNDARIES_SECONDS[2] {
            Act::Accumulation
        } else if elapsed < ACT_BOUNDARIES_SECONDS[3] {
            Act::Crescendo
        } else if elapsed < ACT_BOUNDARIES_SECONDS[4] {
            Act::Release
        } else {
            Act::Transcendence
        }
    }

    /// All acts in order.
    pub fn all() -> (r: [Act; 5])
        ensures
            r@ == seq![
                Act::Emergence,
                Act::Accumulation,
                Act::Crescendo,
                Act::Release,
                Act::Transcendence,
            ],
    {
        [Act::Emergence, Act::Accumulation, Act::Crescendo, Act::Release, Act::Transcendence]
    }

    /// The display name of the act with its number.
    pub open spec fn display_name_spec(&self) -> Seq<char> {
        match self {
            Act::Emergence => "Act I: Emergence"@,
            Act::Accumulation => "Act II: Accumulation"@,
            Act::Crescendo => "Act III: Crescendo"@,
            Act::Release => "Act IV: Release"@,
            Act::Transcendence => "Act V: Transcendence"@,
        }
    }

    /// The display name of the act with its number.
    pub fn display_name(&self) -> (r: &'static str)
        ensures
            r@ == self.display_name_spec(),
    {
        match self {
            Act::Emergence => "Act I: Emergence",
            Act::Accumulation => "Act II: Accumulation",
            Act::Crescendo => "Act III: Crescendo",
            Act::Release => "Act IV: Release",
            Act::Transcendence => "Act V: Transcendence",
        }
    }
}

/// The boundary table and the per-act windows agree: each act starts at its
/// entry of the table and ends where the next entry begins, the entries
/// strictly increase, and they cover the timeline from zero to its end.
pub proof fn lemma_boundaries_cover_timeline(act: Act)
    ensures
        act.start_seconds() == ACT_BOUNDARIES_SECONDS[act.index() as int],
        act.end_seconds() == ACT_BOUNDARIES_SECONDS[act.index() + 1],
        act.start_seconds() < act.end_seconds(),
        act.duration_seconds() == act.end_seconds() - act.start_seconds(),
        ACT_BOUNDARIES_SECONDS[0] == 0,
        ACT_BOUNDARIES_SECONDS[5] == TOTAL_DURATION_SECONDS,
        act.next() matches Some(n) ==> n.start_seconds() == act.end_seconds() && n.index()
            == act.index() + 1,
        act.previous() matches Some(p) ==> p.next() == Some(act),
{
}

/// The act lookup is a step function over the boundaries: every time inside
/// an act's window maps to that act.
pub proof fn lemma_act_is_constant_on_window(act: Act, elapsed: Fixed)
    requires
        act.start_seconds() <= elapsed < act.end_seconds(),
    ensures
        Act::from_elapsed_seconds(elapsed) == act,
{
}

/// The act lookup never goes backward: a later time gives the same act or
/// a later one.
pub proof fn lemma_act_is_monotone(earlier: Fixed, later: Fixed)
    requires
        earlier <= later,
    ensures
        Act::from_elapsed_seconds(earlier).index() <= Act::from_elapsed_seconds(later).index(),
{
}

/// The act lookup is clamped at both ends of the timeline.
pub proof fn lemma_act_is_clamped(elapsed: Fixed)
    ensures
        elapsed < 0 ==> Act::from_elapsed_seconds(elapsed) == Act::Emergence,
        elapsed >= TOTAL_DURATION_SECONDS ==> Act::from_elapsed_seconds(elapsed)
            == Act::Transcendence,
{
}

impl BeatStrength {
    /// The strength class of an amplitude: below 0.1 silence, below 0.3
    /// soft, below 0.6 medium, strong from 0.6 upward.
    pub open spec fn from_amplitude_spec(amplitude: Fixed) -> BeatStrength {
        if amplitude < 100_000 {
            BeatStrength::Silence
        } else if amplitude < 300_000 {
            BeatStrength::Soft
        } else if amplitude < 600_000 {
            BeatStrength::Medium
        } else {
            BeatStrength::Strong
        }
    }

    /// Classifies an amplitude. Each threshold belongs to the class above it.
    #[verifier::when_used_as_spec(from_amplitude_spec)]
    pub fn from_amplitude(amplitude: Fixed) -> (r: BeatStrength)
        ensures
            r == BeatStrength::from_amplitude_spec(amplitude),
            r == BeatStrength::Silence <==> amplitude < 100_000,
            r == BeatStrength::Soft <==> 100_000 <= amplitude < 300_000,
            r == BeatStrength::Medium <==> 300_000 <= amplitude < 600_000,
            r == BeatStrength::Strong <==> 600_000 <= amplitude,
    {
        if amplitude < 100_000 {
            BeatStrength::Silence
        } else if amplitude < 300_000 {
            BeatStrength::Soft
        } else if amplitude < 600_000 {
            BeatStrength::Medium
        } else {
            BeatStrength::Strong
        }
    }
}

impl FrequencyBand {
    /// The visual property that this band drives.
    pub open spec fn visual_target_spec(&self) -> Seq<char> {
        match self {
            FrequencyBand::Bass => "background_pulse"@,
            FrequencyBand::Mid => "spawn_rate"@,
            FrequencyBand::High => "sparkle_probability"@,
            FrequencyBand::Shimmer => "hue_shift"@,
        }
    }

    /// The visual property that this band drives.
    pub fn visual_target(&self) -> (r: &'static str)
        ensures
            r@ == self.visual_target_spec(),
    {
        match self {
            FrequencyBand::Bass => "background_pulse",
            FrequencyBand::Mid => "spawn_rate",
            FrequencyBand::High => "sparkle_probability",
            FrequencyBand::Shimmer => "hue_shift",
        }
    }

    /// All bands from low to high.
    pub fn all() -> (r: [FrequencyBand; 4])
        ensures
            r@ == seq![
                FrequencyBand::Bass,
                FrequencyBand::Mid,
                FrequencyBand::High,
                FrequencyBand::Shimmer,
            ],
    {
        [FrequencyBand::Bass, FrequencyBand::Mid, FrequencyBand::High, FrequencyBand::Shimmer]
    }
}

impl FalloffType {
    /// The argument of the exponential for the exponential falloff:
    /// `-3 * distance / max_distance`.
    pub open spec fn exponent_spec(distance: Fixed, max_distance: Fixed) -> Fixed {
        fx_mul(-3_000_000 as Fixed, fx_div(distance, max_distance))
    }

    /// The argument at which the host evaluates `exp` before it calls
    /// [`FalloffType::calculate`] for the exponential falloff.
    #[verifier::when_used_as_spec(exponent_spec)]
    pub fn exponent(distance: Fixed, max_distance: Fixed) -> (r: Fixed)
        ensures
            r == FalloffType::exponent_spec(distance, max_distance),
    {
        fx_mul(-3_000_000, fx_div(distance, max_distance))
    }

    /// The influence at `distance` from a source that reaches `max_distance`.
    /// `exp_sample` stands for `exp(exponent(distance, max_distance))`.
    pub open spec fn calculate_spec(
        &self,
        distance: Fixed,
        max_distance: Fixed,
        exp_sample: Fixed,
    ) -> Fixed {
        if distance >= max_distance || max_distance <= 0 {
            0
        } else {
            let normalized = fx_div(distance, max_distance);
            match self {
                FalloffType::Linear => fx_max(fx_sub(ONE, normalized), 0),
                FalloffType::Quadratic => fx_max(fx_sub(ONE, fx_mul(normalized, normalized)), 0),
                FalloffType::Exponential => exp_sample,
            }
        }
    }

    /// The influence at `distance` from a source that reaches
    /// `max_distance`: zero at or beyond the reach and for a reach that is
    /// not positive.
    ///
    /// The core evaluates no exponential. For the exponential falloff the
    /// host passes `exp_sample`, the exponential of
    /// [`FalloffType::exponent`]; the other falloffs ignore it.
    #[verifier::when_used_as_spec(calculate_spec)]
    pub fn calculate(&self, distance: Fixed, max_distance: Fixed, exp_sample: Fixed) -> (r: Fixed)
        ensures
            r == self.calculate_spec(distance, max_distance, exp_sample),
    {
        if distance >= max_distance || max_distance <= 0 {
            return 0;
        }
        let normalized = fx_div(distance, max_distance);
        match self {
            FalloffType::Linear => fx_max(fx_sub(ONE, normalized), 0),
            FalloffType::Quadratic => fx_max(fx_sub(ONE, fx_mul(normalized, normalized)), 0),
            FalloffType::Exponential => exp_sample,
        }
    }
}

} // verus!
