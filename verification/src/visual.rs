//! Colour handling: blending, saturation, the hexadecimal notation, and
//! the act-dependent colouring of particles and background.

use vstd::prelude::*;
use vstd::string::{StringExecFns, StringSliceAdditionalSpecFns};
use crate::color::Srgba;
use crate::components::{ParticleBundle, ParticleVisual};
use crate::fixed::{
    Fixed, from_int, fx_add, fx_clamp, fx_div, fx_max, fx_mul, fx_mul_div, fx_sub, HALF, ONE,
};
use crate::particle::{ParticleArena, lemma_same_occupancy_keeps_wf};
use crate::resources::{ActState, CurrentBackground, InterpolatedActValues};
use crate::types::Act;

verus! {

/// Width of the target viewport.
pub const VIEWPORT_WIDTH: Fixed = 1_920_000_000;

/// Height of the target viewport.
pub const VIEWPORT_HEIGHT: Fixed = 1_080_000_000;

/// Depth of the background, far behind the particles.
pub const BACKGROUND_Z_DEPTH: Fixed = -100_000_000;

/// The clear colour at startup: the deep navy void of the first act.
pub open spec fn initial_clear_color_spec() -> Srgba {
    Srgba { red: 51_000, green: 51_000, blue: 90_000, alpha: 1_000_000 }
}

/// The clear colour at startup: the deep navy void of the first act.
#[verifier::when_used_as_spec(initial_clear_color_spec)]
pub fn initial_clear_color() -> (r: Srgba)
    ensures
        r == initial_clear_color_spec(),
{
    Srgba { red: 51_000, green: 51_000, blue: 90_000, alpha: 1_000_000 }
}

/// Channel-wise interpolation between two colours in the display space;
/// `t` is clamped to `[0, 1]`.
pub open spec fn color_lerp_spec(a: Srgba, b: Srgba, t: Fixed) -> Srgba {
    Srgba {
        red: fx_add(a.red, fx_mul(fx_sub(b.red, a.red), fx_clamp(t, 0, ONE))),
        green: fx_add(a.green, fx_mul(fx_sub(b.green, a.green), fx_clamp(t, 0, ONE))),
        blue: fx_add(a.blue, fx_mul(fx_sub(b.blue, a.blue), fx_clamp(t, 0, ONE))),
        alpha: fx_add(a.alpha, fx_mul(fx_sub(b.alpha, a.alpha), fx_clamp(t, 0, ONE))),
    }
}

/// Channel-wise interpolation between two colours in the display space;
/// `t` is clamped to `[0, 1]`.
#[verifier::when_used_as_spec(color_lerp_spec)]
pub fn color_lerp(a: Srgba, b: Srgba, t: Fixed) -> (r: Srgba)
    ensures
        r == color_lerp_spec(a, b, t),
{
    Srgba {
        red: fx_add(a.red, fx_mul(fx_sub(b.red, a.red), fx_clamp(t, 0, ONE))),
        green: fx_add(a.green, fx_mul(fx_sub(b.green, a.green), fx_clamp(t, 0, ONE))),
        blue: fx_add(a.blue, fx_mul(fx_sub(b.blue, a.blue), fx_clamp(t, 0, ONE))),
        alpha: fx_add(a.alpha, fx_mul(fx_sub(b.alpha, a.alpha), fx_clamp(t, 0, ONE))),
    }
}

/// The perceived luminance of a colour, with the weights 0.2126, 0.7152
/// and 0.0722.
pub open spec fn luminance_spec(color: Srgba) -> Fixed {
    fx_add(
        fx_add(fx_mul(212_600, color.red), fx_mul(715_200, color.green)),
        fx_mul(72_200, color.blue),
    )
}

/// The perceived luminance of a colour, with the weights 0.2126, 0.7152
/// and 0.0722.
#[verifier::when_used_as_spec(luminance_spec)]
pub fn luminance(color: Srgba) -> (r: Fixed)
    ensures
        r == luminance_spec(color),
{
    fx_add(
        fx_add(fx_mul(212_600, color.red), fx_mul(715_200, color.green)),
        fx_mul(72_200, color.blue),
    )
}

/// The colour with its saturation scaled: each channel keeps `multiplier`
/// times its distance from the grey of the same luminance. A negative
/// multiplier counts as zero. The channels are clamped to `[0, 1]`; alpha
/// is kept.
pub open spec fn adjust_saturation_spec(color: Srgba, multiplier: Fixed) -> Srgba {
    let gray = luminance(color);
    let kept = fx_max(multiplier, 0);
    Srgba {
        red: fx_clamp(fx_add(gray, fx_mul(fx_sub(color.red, gray), kept)), 0, ONE),
        green: fx_clamp(fx_add(gray, fx_mul(fx_sub(color.green, gray), kept)), 0, ONE),
        blue: fx_clamp(fx_add(gray, fx_mul(fx_sub(color.blue, gray), kept)), 0, ONE),
        alpha: color.alpha,
    }
}

/// The colour with its saturation scaled: each channel keeps `multiplier`
/// times its distance from the grey of the same luminance. A negative
/// multiplier counts as zero. The channels are clamped to `[0, 1]`; alpha
/// is kept.
#[verifier::when_used_as_spec(adjust_saturation_spec)]
pub fn adjust_saturation(color: Srgba, multiplier: Fixed) -> (r: Srgba)
    ensures
        r == adjust_saturation_spec(color, multiplier),
{
    let gray = luminance(color);
    let kept = fx_max(multiplier, 0);
    Srgba {
        red: fx_clamp(fx_add(gray, fx_mul(fx_sub(color.red, gray), kept)), 0, ONE),
        green: fx_clamp(fx_add(gray, fx_mul(fx_sub(color.green, gray), kept)), 0, ONE),
        blue: fx_clamp(fx_add(gray, fx_mul(fx_sub(color.blue, gray), kept)), 0, ONE),
        alpha: color.alpha,
    }
}

/// The value of an ASCII hexadecimal digit of either case.
pub open spec fn hex_digit_value_spec(byte: u8) -> Option<u8> {
    if 48 <= byte && byte <= 57 {
        Some((byte - 48) as u8)
    } else if 97 <= byte && byte <= 102 {
        Some((byte - 87) as u8)
    } else if 65 <= byte && byte <= 70 {
        Some((byte - 55) as u8)
    } else {
        None
    }
}

/// The value of an ASCII hexadecimal digit of either case.
#[verifier::when_used_as_spec(hex_digit_value_spec)]
pub fn hex_digit_value(byte: u8) -> (r: Option<u8>)
    ensures
        r == hex_digit_value_spec(byte),
{
    if 48 <= byte && byte <= 57 {
        Some((byte - 48) as u8)
    } else if 97 <= byte && byte <= 102 {
        Some((byte - 87) as u8)
    } else if 65 <= byte && byte <= 70 {
        Some((byte - 55) as u8)
    } else {
        None
    }
}

/// The value of a two-byte colour component: two hexadecimal digits, or a
/// plus sign followed by one hexadecimal digit.
pub open spec fn hex_pair_value_spec(high: u8, low: u8) -> Option<u8> {
    match hex_digit_value(low) {
        None => None,
        Some(units) => match hex_digit_value(high) {
            Some(sixteens) => Some((sixteens * 16 + units) as u8),
            None => if high == 43 {
                Some(units)
            } else {
                None
            },
        },
    }
}

/// The value of a two-byte colour component: two hexadecimal digits, or a
/// plus sign followed by one hexadecimal digit.
#[verifier::when_used_as_spec(hex_pair_value_spec)]
pub fn hex_pair_value(high: u8, low: u8) -> (r: Option<u8>)
    ensures
        r == hex_pair_value_spec(high, low),
{
    match hex_digit_value(low) {
        None => None,
        Some(units) => match hex_digit_value(high) {
            Some(sixteens) => Some((sixteens * 16 + units) as u8),
            None => if high == 43 {
                Some(units)
            } else {
                None
            },
        },
    }
}

/// The channel that a two-byte colour component stands for: its value over
/// 255, or one where the component is not well formed.
pub open spec fn hex_channel_spec(high: u8, low: u8) -> Fixed {
    match hex_pair_value(high, low) {
        Some(value) => fx_div(from_int(value as i64), 255_000_000),
        None => ONE,
    }
}

/// The channel that a two-byte colour component stands for: its value over
/// 255, or one where the component is not well formed.
#[verifier::when_used_as_spec(hex_channel_spec)]
pub fn hex_channel(high: u8, low: u8) -> (r: Fixed)
    ensures
        r == hex_channel_spec(high, low),
        0 <= r <= ONE,
{
    match hex_pair_value(high, low) {
        Some(value) => fx_div(from_int(value as i64), 255_000_000),
        None => ONE,
    }
}

/// The number of `#` bytes at the start of `bytes` from index `from` on.
pub open spec fn leading_hashes(bytes: Seq<u8>, from: int) -> int
    decreases bytes.len() - from,
{
    if 0 <= from < bytes.len() && bytes[from] == 35 {
        1 + leading_hashes(bytes, from + 1)
    } else {
        0
    }
}

/// The colour that a hexadecimal notation stands for.
///
/// Leading `#` bytes are skipped. Six bytes are read as red, green and
/// blue, eight bytes as red, green, blue and alpha, each component as
/// [`hex_channel`] describes. Any other length gives opaque white.
pub open spec fn hex_color_of(bytes: Seq<u8>) -> Srgba {
    let start = leading_hashes(bytes, 0);
    let digits = bytes.len() - start;
    if digits == 6 {
        Srgba {
            red: hex_channel(bytes[start], bytes[start + 1]),
            green: hex_channel(bytes[start + 2], bytes[start + 3]),
            blue: hex_channel(bytes[start + 4], bytes[start + 5]),
            alpha: ONE,
        }
    } else if digits == 8 {
        Srgba {
            red: hex_channel(bytes[start], bytes[start + 1]),
            green: hex_channel(bytes[start + 2], bytes[start + 3]),
            blue: hex_channel(bytes[start + 4], bytes[start + 5]),
            alpha: hex_channel(bytes[start + 6], bytes[start + 7]),
        }
    } else {
        Srgba::white()
    }
}

/// Reads a colour from its hexadecimal notation, such as `#ff6b6b`,
/// `ff6b6b` or `#ff6b6b80`. A notation of the wrong length gives opaque
/// white, and a component that is not well formed reads as one.
pub fn hex_to_color(hex: &str) -> (color: Srgba)
    ensures
        color == hex_color_of(hex.spec_bytes()),
        color.in_gamut(),
{
    let bytes = hex.as_bytes();
    let length: usize = bytes.len();
    let mut start: usize = 0;
    while start < length && bytes[start] == 35
        invariant
            start <= length,
            length == bytes@.len(),
            leading_hashes(bytes@, 0) == start + leading_hashes(bytes@, start as int),
        decreases length - start,
    {
        start = start + 1;
    }
    let digits: usize = length - start;
    if digits == 6 {
        Srgba {
            red: hex_channel(bytes[start], bytes[start + 1]),
            green: hex_channel(bytes[start + 2], bytes[start + 3]),
            blue: hex_channel(bytes[start + 4], bytes[start + 5]),
            alpha: ONE,
        }
    } else if digits == 8 {
        Srgba {
            red: hex_channel(bytes[start], bytes[start + 1]),
            green: hex_channel(bytes[start + 2], bytes[start + 3]),
            blue: hex_channel(bytes[start + 4], bytes[start + 5]),
            alpha: hex_channel(bytes[start + 6], bytes[start + 7]),
        }
    } else {
        Srgba::white()
    }
}

/// The byte that a channel is written as: the channel times 255, rounded
/// to the nearest whole number and limited to the range of a byte.
pub open spec fn channel_byte_spec(channel: Fixed) -> u8 {
    fx_clamp(fx_mul_div(fx_add(fx_mul(channel, 255_000_000), HALF), 1, ONE), 0, 255) as u8
}

/// The byte that a channel is written as: the channel times 255, rounded
/// to the nearest whole number and limited to the range of a byte.
#[verifier::when_used_as_spec(channel_byte_spec)]
pub fn channel_byte(channel: Fixed) -> (r: u8)
    ensures
        r == channel_byte_spec(channel),
{
    fx_clamp(fx_mul_div(fx_add(fx_mul(channel, 255_000_000), HALF), 1, ONE), 0, 255) as u8
}

/// The lower-case hexadecimal digit of a value below sixteen.
pub open spec fn hex_digit_char(value: u8) -> char {
    if value == 0 {
        '0'
    } else if value == 1 {
        '1'
    } else if value == 2 {
        '2'
    } else if value == 3 {
        '3'
    } else if value == 4 {
        '4'
    } else if value == 5 {
        '5'
    } else if value == 6 {
        '6'
    } else if value == 7 {
        '7'
    } else if value == 8 {
        '8'
    } else if value == 9 {
        '9'
    } else if value == 10 {
        'a'
    } else if value == 11 {
        'b'
    } else if value == 12 {
        'c'
    } else if value == 13 {
        'd'
    } else if value == 14 {
        'e'
    } else {
        'f'
    }
}

/// The two lower-case hexadecimal digits of a byte.
pub open spec fn byte_hex(value: u8) -> Seq<char> {
    seq![hex_digit_char(value / 16), hex_digit_char(value % 16)]
}

/// The hexadecimal notation of a colour: `#rrggbb`, with `aa` appended
/// when the alpha channel is below 0.999.
pub open spec fn hex_of_color(color: Srgba) -> Seq<char> {
    let opaque = seq!['#'] + byte_hex(channel_byte(color.red)) + byte_hex(
        channel_byte(color.green),
    ) + byte_hex(channel_byte(color.blue));
    if color.alpha >= 999_000 {
        opaque
    } else {
        opaque + byte_hex(channel_byte(color.alpha))
    }
}

/// The lower-case hexadecimal digit of a value below sixteen, as text.
fn hex_digit_text(value: u8) -> (r: &'static str)
    ensures
        r@ == seq![hex_digit_char(value)],
{
    proof {
        reveal_strlit("0");
        reveal_strlit("1");
        reveal_strlit("2");
        reveal_strlit("3");
        reveal_strlit("4");
        reveal_strlit("5");
        reveal_strlit("6");
        reveal_strlit("7");
        reveal_strlit("8");
        reveal_strlit("9");
        reveal_strlit("a");
        reveal_strlit("b");
        reveal_strlit("c");
        reveal_strlit("d");
        reveal_strlit("e");
        reveal_strlit("f");
    }
    let text = if value == 0 {
        "0"
    } else if value == 1 {
        "1"
    } else if value == 2 {
        "2"
    } else if value == 3 {
        "3"
    } else if value == 4 {
        "4"
    } else if value == 5 {
        "5"
    } else if value == 6 {
        "6"
    } else if value == 7 {
        "7"
    } else if value == 8 {
        "8"
    } else if value == 9 {
        "9"
    } else if value == 10 {
        "a"
    } else if value == 11 {
        "b"
    } else if value == 12 {
        "c"
    } else if value == 13 {
        "d"
    } else if value == 14 {
        "e"
    } else {
        "f"
    };
    assert(text@ =~= seq![hex_digit_char(value)]);
    text
}

/// Appends the two hexadecimal digits of a byte to a text.
fn push_byte_hex(out: &mut String, value: u8)
    ensures
        final(out)@ == old(out)@ + byte_hex(value),
{
    out.append(hex_digit_text(value / 16));
    out.append(hex_digit_text(value % 16));
    assert(out@ =~= old(out)@ + byte_hex(value));
}

/// Writes a colour in hexadecimal notation: `#rrggbb`, or `#rrggbbaa` when
/// it is not opaque.
pub fn color_to_hex(color: Srgba) -> (hex: String)
    ensures
        hex@ == hex_of_color(color),
{
    proof {
        reveal_strlit("#");
    }
    let mut out = String::new();
    out.append("#");
    assert(out@ =~= seq!['#']);
    push_byte_hex(&mut out, channel_byte(color.red));
    push_byte_hex(&mut out, channel_byte(color.green));
    push_byte_hex(&mut out, channel_byte(color.blue));
    if color.alpha < 999_000 {
        push_byte_hex(&mut out, channel_byte(color.alpha));
    }
    out
}

/// How far the particles of an act are tinted toward a warm cream: not at
/// all in the first act, then rising through the acts and within each act
/// up to one at the very end.
pub open spec fn act_warmth_spec(act: Act, act_progress: Fixed) -> Fixed {
    match act {
        Act::Emergence => 0,
        Act::Accumulation => fx_add(200_000, fx_mul(act_progress, 100_000)),
        Act::Crescendo => fx_add(300_000, fx_mul(act_progress, 200_000)),
        Act::Release => fx_add(500_000, fx_mul(act_progress, 200_000)),
        Act::Transcendence => fx_add(700_000, fx_mul(act_progress, 300_000)),
    }
}

/// How far the particles of an act are tinted toward a warm cream: not at
/// all in the first act, then rising through the acts and within each act
/// up to one at the very end.
#[verifier::when_used_as_spec(act_warmth_spec)]
pub fn act_warmth(act: Act, act_progress: Fixed) -> (r: Fixed)
    ensures
        r == act_warmth_spec(act, act_progress),
{
    match act {
        Act::Emergence => 0,
        Act::Accumulation => fx_add(200_000, fx_mul(act_progress, 100_000)),
        Act::Crescendo => fx_add(300_000, fx_mul(act_progress, 200_000)),
        Act::Release => fx_add(500_000, fx_mul(act_progress, 200_000)),
        Act::Transcendence => fx_add(700_000, fx_mul(act_progress, 300_000)),
    }
}

/// The cream that particles are tinted toward; it is fully transparent.
pub open spec fn warm_tint_spec() -> Srgba {
    Srgba { red: 1_000_000, green: 950_000, blue: 900_000, alpha: 0 }
}

/// The cream that particles are tinted toward; it is fully transparent.
#[verifier::when_used_as_spec(warm_tint_spec)]
pub fn warm_tint() -> (r: Srgba)
    ensures
        r == warm_tint_spec(),
{
    Srgba { red: 1_000_000, green: 950_000, blue: 900_000, alpha: 0 }
}

/// The particle with its current colour derived from its base colour for
/// the act: tinted toward the warm cream by three tenths of the warmth
/// (where there is any), then scaled in saturation. The alpha of the
/// result is the base colour's alpha times the particle's opacity.
pub open spec fn act_colored_spec(p: ParticleBundle, saturation: Fixed, warmth: Fixed) -> ParticleBundle {
    let base = p.visual.base_color;
    let tinted = if warmth > 0 {
        color_lerp(base, warm_tint(), fx_mul(warmth, 300_000))
    } else {
        base
    };
    ParticleBundle {
        visual: ParticleVisual {
            current_color: adjust_saturation(tinted, saturation).with_alpha(
                fx_mul(base.alpha, p.visual.opacity),
            ),
            ..p.visual
        },
        ..p
    }
}

/// The particle with its current colour derived from its base colour for
/// the act: tinted toward the warm cream by three tenths of the warmth
/// (where there is any), then scaled in saturation. The alpha of the
/// result is the base colour's alpha times the particle's opacity.
#[verifier::when_used_as_spec(act_colored_spec)]
pub fn act_colored(p: ParticleBundle, saturation: Fixed, warmth: Fixed) -> (r: ParticleBundle)
    ensures
        r == act_colored_spec(p, saturation, warmth),
{
    let base = p.visual.base_color;
    let tinted = if warmth > 0 {
        color_lerp(base, warm_tint(), fx_mul(warmth, 300_000))
    } else {
        base
    };
    ParticleBundle {
        visual: ParticleVisual {
            current_color: adjust_saturation(tinted, saturation).with_alpha(
                fx_mul(base.alpha, p.visual.opacity),
            ),
            ..p.visual
        },
        ..p
    }
}

/// Derives the current colour of every particle, active or not, from its
/// base colour for the act in force, as [`act_colored`] describes, with the
/// interpolated saturation multiplier and the warmth of the current act.
pub fn apply_act_colors(arena: &mut ParticleArena, interpolated_values: &InterpolatedActValues, act_state: &ActState)
    ensures
        final(arena).pool == old(arena).pool,
        final(arena).particles@.len() == old(arena).particles@.len(),
        forall|i: int|
            0 <= i < old(arena).particles@.len() ==> #[trigger] final(arena).particles@[i]
                == act_colored(old(arena).particles@[i], interpolated_values.saturation_multiplier, act_warmth(act_state.current_act, act_state.act_progress)),
        old(arena).wf() ==> final(arena).wf(),
{
    let count: usize = arena.particles.len();
    let mut i: usize = 0;
    while i < count
        invariant
            i <= count,
            count == arena.particles@.len(),
            count == old(arena).particles@.len(),
            arena.pool == old(arena).pool,
            forall|j: int|
                0 <= j < i ==> #[trigger] arena.particles@[j] == act_colored(old(arena).particles@[j], interpolated_values.saturation_multiplier, act_warmth(act_state.current_act, act_state.act_progress)),
            forall|j: int| i <= j < count ==> arena.particles@[j] == old(arena).particles@[j],
        decreases count - i,
    {
        let stepped = act_colored(arena.particles[i], interpolated_values.saturation_multiplier, act_warmth(act_state.current_act, act_state.act_progress));
        arena.particles[i] = stepped;
        i = i + 1;
    }
    proof {
        if old(arena).wf() {
            lemma_same_occupancy_keeps_wf(old(arena), arena);
        }
    }
}

/// The colour of the background: the middle of its gradient, brightened
/// toward white by a tenth of the pulse intensity while that is above one
/// thousandth.
pub open spec fn background_color_spec(background: CurrentBackground) -> Srgba {
    let middle = color_lerp(background.gradient_start, background.gradient_end, 500_000);
    if background.pulse_intensity > 1_000 {
        color_lerp(middle, Srgba::white(), fx_mul(background.pulse_intensity, 100_000))
    } else {
        middle
    }
}

/// The colour that the host gives the background sprite whenever the
/// background has changed.
#[verifier::when_used_as_spec(background_color_spec)]
pub fn background_color(background: CurrentBackground) -> (r: Srgba)
    ensures
        r == background_color_spec(background),
{
    let middle = color_lerp(background.gradient_start, background.gradient_end, 500_000);
    if background.pulse_intensity > 1_000 {
        color_lerp(middle, Srgba::white(), fx_mul(background.pulse_intensity, 100_000))
    } else {
        middle
    }
}

/// The colour of the background sprite for the current background.
pub fn update_background_gradient(current_background: &CurrentBackground) -> (color: Srgba)
    ensures
        color == background_color(*current_background),
{
    background_color(*current_background)
}

/// The clear colour of the camera for the current background: the start of
/// its gradient.
pub fn sync_camera_clear_color(current_background: &CurrentBackground) -> (color: Srgba)
    ensures
        color == current_background.gradient_start,
{
    current_background.gradient_start
}

} // verus!
