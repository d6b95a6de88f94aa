//! Trails: recording, exponential fading and measuring of the ring of
//! past positions that every particle carries.

use vstd::prelude::*;
use crate::components::{ParticleBundle, Trail, TrailSegment, TrailView};
use crate::fixed::{Fixed, fx_add, fx_div, fx_max, fx_min, fx_mul, fx_neg, fx_sub, ONE};
use crate::particle::{MS_PER_SECOND, ParticleArena, lemma_same_occupancy_keeps_wf};
use crate::resources::MotionTiming;
use crate::vector::Vec2;

verus! {

/// Number of segments in each trail's ring.
pub const TRAIL_SEGMENTS: usize = 12;

/// Time for a trail to fade to one hundredth, in milliseconds.
pub const TRAIL_FADE_DURATION_MS: Fixed = 1_500_000_000;

/// Width of a trail at its newest segment.
pub const TRAIL_BASE_WIDTH: Fixed = 4_000_000;

/// Width ratio from one segment to the next older one.
pub const TRAIL_TAPER_FACTOR: Fixed = 700_000;

/// The natural logarithm of one hundred, to three decimals.
pub const LN_100: Fixed = 4_605_000;

/// Opacity below which a segment is snapped to invisible.
pub const OPACITY_FLOOR: Fixed = 1_000;

/// Opacity above which a segment counts as visible.
pub const VISIBLE_OPACITY: Fixed = 10_000;

/// `factor` raised to the whole power `exponent`, by repeated
/// multiplication.
pub open spec fn taper_power(factor: Fixed, exponent: nat) -> Fixed
    decreases exponent,
{
    if exponent == 0 {
        ONE
    } else {
        fx_mul(taper_power(factor, (exponent - 1) as nat), factor)
    }
}

/// The width of the trail at the segment `segment_index` places behind the
/// newest: `base_width * taper_factor ^ segment_index`.
pub open spec fn calculate_trail_width_spec(
    segment_index: usize,
    base_width: Fixed,
    taper_factor: Fixed,
) -> Fixed {
    fx_mul(base_width, taper_power(taper_factor, segment_index as nat))
}

/// The width of the trail at the segment `segment_index` places behind the
/// newest. The width tapers geometrically from the head.
#[verifier::when_used_as_spec(calculate_trail_width_spec)]
pub fn calculate_trail_width(segment_index: usize, base_width: Fixed, taper_factor: Fixed) -> (r:
    Fixed)
    ensures
        r == calculate_trail_width_spec(segment_index, base_width, taper_factor),
{
    let mut power: Fixed = ONE;
    let mut done: usize = 0;
    while done < segment_index
        invariant
            done <= segment_index,
            power == taper_power(taper_factor, done as nat),
        decreases segment_index - done,
    {
        power = fx_mul(power, taper_factor);
        done = done + 1;
    }
    fx_mul(base_width, power)
}

/// The decay rate per millisecond that fades an opacity to one hundredth
/// over `duration_ms`: `ln(100) / duration_ms`. A duration that is not
/// positive gives a rate of one.
pub open spec fn calculate_decay_rate_spec(duration_ms: Fixed) -> Fixed {
    if duration_ms > 0 {
        fx_div(LN_100, duration_ms)
    } else {
        ONE
    }
}

/// The decay rate per millisecond that fades an opacity to one hundredth
/// over `duration_ms`: `ln(100) / duration_ms`. A duration that is not
/// positive gives a rate of one.
#[verifier::when_used_as_spec(calculate_decay_rate_spec)]
pub fn calculate_decay_rate(duration_ms: Fixed) -> (r: Fixed)
    ensures
        r == calculate_decay_rate_spec(duration_ms),
{
    if duration_ms > 0 {
        fx_div(LN_100, duration_ms)
    } else {
        ONE
    }
}

/// The fade duration in force: the slow transition duration of the motion
/// timing, capped at [`TRAIL_FADE_DURATION_MS`], or that constant without a
/// motion timing.
pub open spec fn fade_duration_spec(motion_timing: Option<MotionTiming>) -> Fixed {
    match motion_timing {
        Some(timing) => fx_min(timing.slow_transition_duration_ms, TRAIL_FADE_DURATION_MS),
        None => TRAIL_FADE_DURATION_MS,
    }
}

/// The argument of the exponential that fades the trails over
/// `delta_seconds`: minus the decay rate times the duration in
/// milliseconds.
pub open spec fn trail_decay_exponent_spec(
    delta_seconds: Fixed,
    motion_timing: Option<MotionTiming>,
) -> Fixed {
    fx_mul(
        fx_neg(calculate_decay_rate(fade_duration_spec(motion_timing))),
        fx_mul(delta_seconds, MS_PER_SECOND),
    )
}

/// The argument at which the host evaluates the exponential for
/// [`decay_trail_opacity`].
#[verifier::when_used_as_spec(trail_decay_exponent_spec)]
pub fn trail_decay_exponent(delta_seconds: Fixed, motion_timing: Option<MotionTiming>) -> (r:
    Fixed)
    ensures
        r == trail_decay_exponent_spec(delta_seconds, motion_timing),
{
    let duration = match motion_timing {
        Some(timing) => fx_min(timing.slow_transition_duration_ms, TRAIL_FADE_DURATION_MS),
        None => TRAIL_FADE_DURATION_MS,
    };
    fx_mul(fx_neg(calculate_decay_rate(duration)), fx_mul(delta_seconds, MS_PER_SECOND))
}

/// The segment after one tick of fading: its opacity is multiplied by
/// `decay_sample` and snapped to zero below one thousandth.
pub open spec fn faded_spec(segment: TrailSegment, decay_sample: Fixed) -> TrailSegment {
    TrailSegment {
        opacity: if fx_mul(segment.opacity, decay_sample) < OPACITY_FLOOR {
            0
        } else {
            fx_mul(segment.opacity, decay_sample)
        },
        ..segment
    }
}

/// The segment after one tick of fading: its opacity is multiplied by
/// `decay_sample` and snapped to zero below one thousandth.
#[verifier::when_used_as_spec(faded_spec)]
pub fn faded(segment: TrailSegment, decay_sample: Fixed) -> (r: TrailSegment)
    ensures
        r == faded_spec(segment, decay_sample),
{
    TrailSegment {
        opacity: if fx_mul(segment.opacity, decay_sample) < OPACITY_FLOOR {
            0
        } else {
            fx_mul(segment.opacity, decay_sample)
        },
        ..segment
    }
}

/// Fading never brightens a segment, and with a decay sample below one it
/// strictly dims every segment that is still visible. A trail that is no
/// longer fed therefore goes dark after finitely many ticks.
pub proof fn lemma_fading_dims(segment: TrailSegment, decay_sample: Fixed)
    requires
        0 <= segment.opacity,
        0 <= decay_sample <= ONE,
    ensures
        0 <= faded(segment, decay_sample).opacity <= segment.opacity,
        decay_sample < ONE && segment.opacity > 0 ==> faded(segment, decay_sample).opacity
            < segment.opacity,
{
    assert(0 <= segment.opacity * decay_sample <= segment.opacity * 1_000_000) by (nonlinear_arith)
        requires
            0 <= segment.opacity,
            0 <= decay_sample <= 1_000_000,
    ;
    if decay_sample < ONE && segment.opacity > 0 {
        assert(segment.opacity * decay_sample <= segment.opacity * 1_000_000 - segment.opacity)
            by (nonlinear_arith)
            requires
                0 < segment.opacity,
                0 <= decay_sample <= 999_999,
        ;
    }
}

/// The opacity of a segment after `ticks` ticks of fading with the same
/// decay sample.
pub open spec fn opacity_after(segment: TrailSegment, decay_sample: Fixed, ticks: nat) -> Fixed
    decreases ticks,
{
    if ticks == 0 {
        segment.opacity
    } else {
        faded(
            TrailSegment {
                opacity: opacity_after(segment, decay_sample, (ticks - 1) as nat),
                ..segment
            },
            decay_sample,
        ).opacity
    }
}

/// A trail that is no longer fed goes dark: with a decay sample below one,
/// every tick takes at least one unit of resolution off a visible opacity,
/// so after as many ticks as the opacity has units nothing is left.
pub proof fn lemma_trail_goes_dark(segment: TrailSegment, decay_sample: Fixed, ticks: nat)
    requires
        0 <= segment.opacity,
        0 <= decay_sample < ONE,
    ensures
        0 <= opacity_after(segment, decay_sample, ticks),
        opacity_after(segment, decay_sample, ticks) <= segment.opacity - ticks || opacity_after(
            segment,
            decay_sample,
            ticks,
        ) == 0,
        ticks >= segment.opacity ==> opacity_after(segment, decay_sample, ticks) == 0,
    decreases ticks,
{
    if ticks > 0 {
        lemma_trail_goes_dark(segment, decay_sample, (ticks - 1) as nat);
        let before = TrailSegment {
            opacity: opacity_after(segment, decay_sample, (ticks - 1) as nat),
            ..segment
        };
        lemma_fading_dims(before, decay_sample);
    }
}

impl TrailView {
    /// The ring with every segment faded by `decay_sample`.
    pub open spec fn faded(self, decay_sample: Fixed) -> TrailView {
        TrailView {
            segments: Seq::new(12, |k: int| faded(self.segments[k], decay_sample)),
            head_index: self.head_index,
        }
    }
}

/// Fades every segment of one trail.
pub fn fade_trail(trail: &mut Trail, decay_sample: Fixed)
    ensures
        final(trail)@ == old(trail)@.faded(decay_sample),
{
    let mut k: usize = 0;
    while k < 12
        invariant
            k <= 12,
            trail.head_index == old(trail).head_index,
            forall|j: int| 0 <= j < k ==> trail.segments@[j] == faded(
                old(trail).segments@[j],
                decay_sample,
            ),
            forall|j: int| k <= j < 12 ==> trail.segments@[j] == old(trail).segments@[j],
        decreases 12 - k,
    {
        let segment = faded(trail.segments[k], decay_sample);
        trail.segments[k] = segment;
        k = k + 1;
    }
    assert(trail@.segments =~= old(trail)@.faded(decay_sample).segments);
}

/// Whether `after` is `before` with another trail and nothing else changed.
pub open spec fn only_trail_differs(before: ParticleBundle, after: ParticleBundle) -> bool {
    after == (ParticleBundle { trail: after.trail, ..before })
}

/// Fades the trails of all particles, active or not, trail-enabled or not.
///
/// Every segment of every ring has its opacity multiplied by
/// `decay_sample` and snapped to zero below one thousandth. `decay_sample`
/// is the exponential of [`trail_decay_exponent`], which the host
/// evaluates. Nothing but the trails changes.
pub fn decay_trail_opacity(arena: &mut ParticleArena, decay_sample: Fixed)
    ensures
        final(arena).pool == old(arena).pool,
        final(arena).particles@.len() == old(arena).particles@.len(),
        forall|i: int|
            0 <= i < old(arena).particles@.len() ==> only_trail_differs(
                old(arena).particles@[i],
                #[trigger] final(arena).particles@[i],
            ) && final(arena).particles@[i].trail@ == old(arena).particles@[i].trail@.faded(
                decay_sample,
            ),
        old(arena).wf() ==> final(arena).wf(),
{
    let count: usize = arena.particles.len();
    let mut i: usize = 0;
    while i < count
        invariant
            i <= count,
            count == arena.particles@.len(),
            count == old(arena).particles@.len(),
            arena.pool == old(arena).pool,
            forall|j: int|
                0 <= j < i ==> only_trail_differs(
                    old(arena).particles@[j],
                    #[trigger] arena.particles@[j],
                ) && arena.particles@[j].trail@ == old(arena).particles@[j].trail@.faded(
                    decay_sample,
                ),
            forall|j: int| i <= j < count ==> arena.particles@[j] == old(arena).particles@[j],
        decreases count - i,
    {
        let mut p = arena.particles[i];
        let mut trail = p.trail;
        fade_trail(&mut trail, decay_sample);
        p.trail = trail;
        arena.particles[i] = p;
        i = i + 1;
    }
    proof {
        if old(arena).wf() {
            lemma_same_occupancy_keeps_wf(old(arena), arena);
        }
    }
}

/// The segment that a particle records at `current_time_ms`: at its
/// position, fully opaque, as wide as the head of its trail.
pub open spec fn head_segment_spec(p: ParticleBundle, current_time_ms: Fixed) -> TrailSegment {
    TrailSegment {
        position: p.transform.translation,
        opacity: ONE,
        width: calculate_trail_width(0, p.trail_renderer.base_width, p.trail_renderer.taper_factor),
        timestamp_ms: current_time_ms,
    }
}

/// The segment that a particle records at `current_time_ms`.
#[verifier::when_used_as_spec(head_segment_spec)]
pub fn head_segment(p: ParticleBundle, current_time_ms: Fixed) -> (r: TrailSegment)
    ensures
        r == head_segment_spec(p, current_time_ms),
{
    TrailSegment {
        position: p.transform.translation,
        opacity: ONE,
        width: calculate_trail_width(0, p.trail_renderer.base_width, p.trail_renderer.taper_factor),
        timestamp_ms: current_time_ms,
    }
}

/// Whether a particle records its position: it is active and its trail is
/// enabled.
pub open spec fn records_trail(p: ParticleBundle) -> bool {
    p.state.active && p.trail_renderer.enabled
}

/// Records the current position of every active, trail-enabled particle as
/// the newest segment of its trail, overwriting the oldest. Nothing but the
/// trails of those particles changes.
pub fn update_trails(arena: &mut ParticleArena, current_time_ms: Fixed)
    ensures
        final(arena).pool == old(arena).pool,
        final(arena).particles@.len() == old(arena).particles@.len(),
        forall|i: int|
            0 <= i < old(arena).particles@.len() ==> (if records_trail(old(arena).particles@[i]) {
                only_trail_differs(old(arena).particles@[i], #[trigger] final(arena).particles@[i])
                    && final(arena).particles@[i].trail@ == old(arena).particles@[i].trail@.pushed(
                    head_segment(old(arena).particles@[i], current_time_ms),
                )
            } else {
                final(arena).particles@[i] == old(arena).particles@[i]
            }),
        old(arena).wf() ==> final(arena).wf(),
{
    let count: usize = arena.particles.len();
    let mut i: usize = 0;
    while i < count
        invariant
            i <= count,
            count == arena.particles@.len(),
            count == old(arena).particles@.len(),
            arena.pool == old(arena).pool,
            forall|j: int|
                0 <= j < i ==> (if records_trail(old(arena).particles@[j]) {
                    only_trail_differs(old(arena).particles@[j], #[trigger] arena.particles@[j])
                        && arena.particles@[j].trail@ == old(arena).particles@[j].trail@.pushed(
                        head_segment(old(arena).particles@[j], current_time_ms),
                    )
                } else {
                    arena.particles@[j] == old(arena).particles@[j]
                }),
            forall|j: int| i <= j < count ==> arena.particles@[j] == old(arena).particles@[j],
        decreases count - i,
    {
        if arena.particles[i].state.active && arena.particles[i].trail_renderer.enabled {
            let mut p = arena.particles[i];
            let mut trail = p.trail;
            trail.push_segment(head_segment(p, current_time_ms));
            p.trail = trail;
            arena.particles[i] = p;
        }
        i = i + 1;
    }
    proof {
        if old(arena).wf() {
            assert forall|j: int| 0 <= j < count implies (#[trigger] arena.particles@[j]).particle
                == old(arena).particles@[j].particle && arena.particles@[j].state.active == old(
                arena,
            ).particles@[j].state.active by {
                if records_trail(old(arena).particles@[j]) {
                    assert(only_trail_differs(old(arena).particles@[j], arena.particles@[j]));
                }
            }
            lemma_same_occupancy_keeps_wf(old(arena), arena);
        }
    }
}

/// Clears a trail: the head returns to slot zero and every segment becomes
/// empty.
pub fn reset_trail(trail: &mut Trail)
    ensures
        final(trail)@ == TrailView::cleared(),
{
    trail.head_index = 0;
    let mut k: usize = 0;
    while k < 12
        invariant
            k <= 12,
            trail.head_index == 0,
            forall|j: int| 0 <= j < k ==> trail.segments@[j] == TrailSegment::default_spec(),
        decreases 12 - k,
    {
        trail.segments[k] = TrailSegment::new();
        k = k + 1;
    }
    assert(trail@.segments =~= TrailView::cleared().segments);
}

/// Whether a segment counts as visible.
pub open spec fn is_visible(segment: TrailSegment) -> bool {
    segment.opacity > VISIBLE_OPACITY
}

/// The length of the path through the visible ones of the first `n`
/// segments, together with the position of the last visible one among
/// them. Invisible segments are skipped: the path runs straight from each
/// visible segment to the next visible one.
pub open spec fn visible_path(segments: Seq<TrailSegment>, n: int) -> (Fixed, Option<Vec2>)
    decreases n,
{
    if n <= 0 {
        (0, None)
    } else {
        let (length, last) = visible_path(segments, n - 1);
        if is_visible(segments[n - 1]) {
            (
                match last {
                    Some(previous) => fx_add(length, previous.distance(segments[n - 1].position)),
                    None => length,
                },
                Some(segments[n - 1].position),
            )
        } else {
            (length, last)
        }
    }
}

/// The visible length of a trail: the sum of the distances between
/// consecutive visible segments, from newest to oldest. A trail with fewer
/// than two visible segments has length zero.
pub fn get_trail_length(trail: &Trail) -> (r: Fixed)
    ensures
        r == visible_path(trail@.newest_first(), 12).0,
{
    let segments = trail.iter_segments();
    let mut length: Fixed = 0;
    let mut last: Option<Vec2> = None;
    let mut n: usize = 0;
    while n < 12
        invariant
            n <= 12,
            segments@ == trail@.newest_first(),
            segments@.len() == 12,
            (length, last) == visible_path(segments@, n as int),
        decreases 12 - n,
    {
        let segment = segments[n];
        if segment.opacity > VISIBLE_OPACITY {
            match last {
                Some(previous) => {
                    length = fx_add(length, previous.distance(segment.position));
                },
                None => {},
            }
            last = Some(segment.position);
        }
        n = n + 1;
    }
    length
}

/// Whether a segment counts toward the age of a trail: it is visible and
/// carries a timestamp.
pub open spec fn is_dated(segment: TrailSegment) -> bool {
    is_visible(segment) && segment.timestamp_ms > 0
}

/// The largest age among the dated ones of the first `n` segments, and zero
/// if there is none.
pub open spec fn oldest_age(segments: Seq<TrailSegment>, current_time_ms: Fixed, n: int) -> Fixed
    decreases n,
{
    if n <= 0 {
        0
    } else if is_dated(segments[n - 1]) {
        fx_max(
            oldest_age(segments, current_time_ms, n - 1),
            fx_sub(current_time_ms, segments[n - 1].timestamp_ms),
        )
    } else {
        oldest_age(segments, current_time_ms, n - 1)
    }
}

/// The age in milliseconds of the oldest visible segment that carries a
/// timestamp, or zero if there is none.
pub fn get_oldest_segment_age(trail: &Trail, current_time_ms: Fixed) -> (r: Fixed)
    ensures
        r == oldest_age(trail@.newest_first(), current_time_ms, 12),
{
    let segments = trail.iter_segments();
    let mut oldest: Fixed = 0;
    let mut n: usize = 0;
    while n < 12
        invariant
            n <= 12,
            segments@ == trail@.newest_first(),
            segments@.len() == 12,
            oldest == oldest_age(segments@, current_time_ms, n as int),
        decreases 12 - n,
    {
        let segment = segments[n];
        if segment.opacity > VISIBLE_OPACITY && segment.timestamp_ms > 0 {
            oldest = fx_max(oldest, fx_sub(current_time_ms, segment.timestamp_ms));
        }
        n = n + 1;
    }
    oldest
}

} // verus!
