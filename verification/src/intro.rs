//! The intro sequence: six text steps that fade in, stay and fade out
//! before the experience itself begins.

use vstd::prelude::*;
use crate::color::Srgba;
use crate::fixed::{Fixed, fx_add, fx_div, fx_min, fx_mul, fx_sub, ONE};

verus! {

/// Duration of a fade in or out in seconds.
pub const FADE_DURATION: Fixed = 500_000;

/// Background colour of the intro: a deep navy void.
pub open spec fn bg_color_spec() -> Srgba {
    Srgba { red: 51_000, green: 51_000, blue: 90_000, alpha: 1_000_000 }
}

/// Background colour of the intro: a deep navy void.
#[verifier::when_used_as_spec(bg_color_spec)]
pub fn bg_color() -> (r: Srgba)
    ensures
        r == bg_color_spec(),
{
    Srgba { red: 51_000, green: 51_000, blue: 90_000, alpha: 1_000_000 }
}

/// Primary accent: a vibrant spring green.
pub open spec fn accent_primary_spec() -> Srgba {
    Srgba { red: 0, green: 1_000_000, blue: 533_000, alpha: 1_000_000 }
}

/// Primary accent: a vibrant spring green.
#[verifier::when_used_as_spec(accent_primary_spec)]
pub fn accent_primary() -> (r: Srgba)
    ensures
        r == accent_primary_spec(),
{
    Srgba { red: 0, green: 1_000_000, blue: 533_000, alpha: 1_000_000 }
}

/// Secondary accent: chartreuse.
pub open spec fn accent_secondary_spec() -> Srgba {
    Srgba { red: 498_000, green: 1_000_000, blue: 0, alpha: 1_000_000 }
}

/// Secondary accent: chartreuse.
#[verifier::when_used_as_spec(accent_secondary_spec)]
pub fn accent_secondary() -> (r: Srgba)
    ensures
        r == accent_secondary_spec(),
{
    Srgba { red: 498_000, green: 1_000_000, blue: 0, alpha: 1_000_000 }
}

/// Which part of the application is running.
#[derive(Clone, Copy, Debug, PartialEq, Eq, Hash, Structural)]
pub enum AppState {
    /// The intro sequence.
    Intro,
    /// The experience itself.
    Fidget,
}

impl Default for AppState {
    fn default() -> (r: AppState)
        ensures
            r == AppState::Intro,
    {
        AppState::Intro
    }
}

/// The steps of the intro sequence, in order.
#[derive(Clone, Copy, Debug, PartialEq, Eq, Hash, Structural)]
pub enum IntroStep {
    /// The title.
    Title,
    /// The tagline.
    Tagline,
    /// How to paint.
    TouchInstruction,
    /// How to trigger explosions.
    TapInstruction,
    /// How to trigger hyperspace.
    TwoFingerInstruction,
    /// The prompt to begin.
    Ready,
}

/// Phase of a step's fade.
#[derive(Clone, Copy, Debug, PartialEq, Eq, Structural)]
pub enum FadePhase {
    /// The text is appearing.
    FadingIn,
    /// The text is fully shown.
    Visible,
    /// The text is disappearing.
    FadingOut,
}

impl Default for FadePhase {
    fn default() -> (r: FadePhase)
        ensures
            r == FadePhase::FadingIn,
    {
        FadePhase::FadingIn
    }
}

/// Where the intro sequence stands.
#[derive(Clone, Copy, Debug, PartialEq, Eq, Structural)]
pub struct IntroState {
    /// The step being shown.
    pub current_step: IntroStep,
    /// Seconds spent in the current phase.
    pub phase_timer: Fixed,
    /// The phase of the current step.
    pub fade_phase: FadePhase,
    /// Whether the user skipped the intro.
    pub skipped: bool,
}

impl Default for IntroState {
    fn default() -> (r: IntroState)
        ensures
            r == (IntroState {
                current_step: IntroStep::Title,
                phase_timer: 0,
                fade_phase: FadePhase::FadingIn,
                skipped: false,
            }),
    {
        IntroState {
            current_step: IntroStep::Title,
            phase_timer: 0,
            fade_phase: FadePhase::FadingIn,
            skipped: false,
        }
    }
}

impl IntroStep {
    /// How long this step is shown, fades included, in seconds.
    pub open spec fn duration_secs_spec(&self) -> Fixed {
        match self {
            IntroStep::Title => 2_500_000,
            IntroStep::Tagline => 2_000_000,
            IntroStep::TouchInstruction => 2_500_000,
            IntroStep::TapInstruction => 2_000_000,
            IntroStep::TwoFingerInstruction => 2_500_000,
            IntroStep::Ready => 3_000_000,
        }
    }

    /// How long this step is shown, fades included, in seconds.
    #[verifier::when_used_as_spec(duration_secs_spec)]
    pub fn duration_secs(&self) -> (r: Fixed)
        ensures
            r == self.duration_secs_spec(),
    {
        match self {
            IntroStep::Title => 2_500_000,
            IntroStep::Tagline => 2_000_000,
            IntroStep::TouchInstruction => 2_500_000,
            IntroStep::TapInstruction => 2_000_000,
            IntroStep::TwoFingerInstruction => 2_500_000,
            IntroStep::Ready => 3_000_000,
        }
    }

    /// The step that follows, or `None` after the last.
    pub open spec fn next_spec(&self) -> Option<IntroStep> {
        match self {
            IntroStep::Title => Some(IntroStep::Tagline),
            IntroStep::Tagline => Some(IntroStep::TouchInstruction),
            IntroStep::TouchInstruction => Some(IntroStep::TapInstruction),
            IntroStep::TapInstruction => Some(IntroStep::TwoFingerInstruction),
            IntroStep::TwoFingerInstruction => Some(IntroStep::Ready),
            IntroStep::Ready => None,
        }
    }

    /// The step that follows, or `None` after the last.
    #[verifier::when_used_as_spec(next_spec)]
    pub fn next(&self) -> (r: Option<IntroStep>)
        ensures
            r == self.next_spec(),
    {
        match self {
            IntroStep::Title => Some(IntroStep::Tagline),
            IntroStep::Tagline => Some(IntroStep::TouchInstruction),
            IntroStep::TouchInstruction => Some(IntroStep::TapInstruction),
            IntroStep::TapInstruction => Some(IntroStep::TwoFingerInstruction),
            IntroStep::TwoFingerInstruction => Some(IntroStep::Ready),
            IntroStep::Ready => None,
        }
    }

    /// Font size of this step's text.
    pub open spec fn primary_font_size_spec(&self) -> Fixed {
        match self {
            IntroStep::Title => 96_000_000,
            IntroStep::Tagline => 36_000_000,
            IntroStep::TouchInstruction => 48_000_000,
            IntroStep::TapInstruction => 48_000_000,
            IntroStep::TwoFingerInstruction => 48_000_000,
            IntroStep::Ready => 48_000_000,
        }
    }

    /// Font size of this step's text.
    #[verifier::when_used_as_spec(primary_font_size_spec)]
    pub fn primary_font_size(&self) -> (r: Fixed)
        ensures
            r == self.primary_font_size_spec(),
    {
        match self {
            IntroStep::Title => 96_000_000,
            IntroStep::Tagline => 36_000_000,
            IntroStep::TouchInstruction => 48_000_000,
            IntroStep::TapInstruction => 48_000_000,
            IntroStep::TwoFingerInstruction => 48_000_000,
            IntroStep::Ready => 48_000_000,
        }
    }

    /// Colour of this step's text.
    pub open spec fn color_spec(&self) -> Srgba {
        match self {
            IntroStep::Title => accent_primary(),
            IntroStep::Tagline => accent_secondary(),
            IntroStep::TouchInstruction => accent_primary(),
            IntroStep::TapInstruction => accent_primary(),
            IntroStep::TwoFingerInstruction => accent_primary(),
            IntroStep::Ready => accent_primary(),
        }
    }

    /// Colour of this step's text.
    #[verifier::when_used_as_spec(color_spec)]
    pub fn color(&self) -> (r: Srgba)
        ensures
            r == self.color_spec(),
    {
        match self {
            IntroStep::Title => accent_primary(),
            IntroStep::Tagline => accent_secondary(),
            IntroStep::TouchInstruction => accent_primary(),
            IntroStep::TapInstruction => accent_primary(),
            IntroStep::TwoFingerInstruction => accent_primary(),
            IntroStep::Ready => accent_primary(),
        }
    }

    /// The text of this step.
    pub open spec fn primary_text_spec(&self) -> Seq<char> {
        match self {
            IntroStep::Title => "WHIRLED PEAS"@,
            IntroStep::Tagline => "A Visual Fidget Experience"@,
            IntroStep::TouchInstruction => "Touch & drag to paint"@,
            IntroStep::TapInstruction => "Tap for explosions"@,
            IntroStep::TwoFingerInstruction => "Two-finger tap for hyperspace"@,
            IntroStep::Ready => "Touch to begin"@,
        }
    }

    /// The text of this step.
    pub fn primary_text(&self) -> (r: &'static str)
        ensures
            r@ == self.primary_text_spec(),
    {
        match self {
            IntroStep::Title => "WHIRLED PEAS",
            IntroStep::Tagline => "A Visual Fidget Experience",
            IntroStep::TouchInstruction => "Touch & drag to paint",
            IntroStep::TapInstruction => "Tap for explosions",
            IntroStep::TwoFingerInstruction => "Two-finger tap for hyperspace",
            IntroStep::Ready => "Touch to begin",
        }
    }
}

/// Quadratic ease-in: slow start, fast end.
pub open spec fn ease_in_spec(t: Fixed) -> Fixed {
    fx_mul(t, t)
}

/// Quadratic ease-in: slow start, fast end.
#[verifier::when_used_as_spec(ease_in_spec)]
pub fn ease_in(t: Fixed) -> (r: Fixed)
    ensures
        r == ease_in_spec(t),
{
    fx_mul(t, t)
}

/// Quadratic ease-out: fast start, slow end.
pub open spec fn ease_out_spec(t: Fixed) -> Fixed {
    fx_sub(ONE, fx_mul(fx_sub(ONE, t), fx_sub(ONE, t)))
}

/// Quadratic ease-out: fast start, slow end.
#[verifier::when_used_as_spec(ease_out_spec)]
pub fn ease_out(t: Fixed) -> (r: Fixed)
    ensures
        r == ease_out_spec(t),
{
    fx_sub(ONE, fx_mul(fx_sub(ONE, t), fx_sub(ONE, t)))
}

/// The base colour of a step's text.
pub open spec fn step_color_spec(step: IntroStep) -> Srgba {
    step.color()
}

/// The base colour of a step's text.
#[verifier::when_used_as_spec(step_color_spec)]
pub fn step_color(step: IntroStep) -> (r: Srgba)
    ensures
        r == step_color_spec(step),
{
    step.color()
}

/// What the host must show after a tick of the intro.
#[derive(Clone, Copy, Debug, PartialEq, Eq)]
pub struct IntroFrame {
    /// The colour of the text, where this tick changes it.
    pub text_color: Option<Srgba>,
    /// The step whose text and font size the host must switch to, where
    /// this tick starts a new step.
    pub new_step: Option<IntroStep>,
    /// Whether the intro has run to its end and the experience begins.
    pub finished: bool,
}

/// The share of a fade that has passed, capped at one.
pub open spec fn fade_share_spec(phase_timer: Fixed) -> Fixed {
    fx_min(fx_div(phase_timer, FADE_DURATION), ONE)
}

/// The share of a fade that has passed, capped at one.
#[verifier::when_used_as_spec(fade_share_spec)]
pub fn fade_share(phase_timer: Fixed) -> (r: Fixed)
    ensures
        r == fade_share_spec(phase_timer),
{
    fx_min(fx_div(phase_timer, FADE_DURATION), ONE)
}

/// The intro state after one tick.
///
/// The phase timer advances. A fade in turns into the visible phase after
/// half a second; the visible phase turns into a fade out once the step's
/// duration less the two fades has passed; a fade out that has run half a
/// second moves on to the next step, fading in. Each change of phase
/// restarts the timer. After the last step's fade out the state stays as
/// it is.
pub open spec fn intro_state_after_spec(state: IntroState, delta_seconds: Fixed) -> IntroState {
    let timer = fx_add(state.phase_timer, delta_seconds);
    let visible_for = fx_sub(state.current_step.duration_secs(), fx_mul(2_000_000, FADE_DURATION));
    match state.fade_phase {
        FadePhase::FadingIn => if timer >= FADE_DURATION {
            IntroState { fade_phase: FadePhase::Visible, phase_timer: 0, ..state }
        } else {
            IntroState { phase_timer: timer, ..state }
        },
        FadePhase::Visible => if timer >= visible_for {
            IntroState { fade_phase: FadePhase::FadingOut, phase_timer: 0, ..state }
        } else {
            IntroState { phase_timer: timer, ..state }
        },
        FadePhase::FadingOut => if timer >= FADE_DURATION {
            match state.current_step.next() {
                Some(next_step) => IntroState {
                    current_step: next_step,
                    fade_phase: FadePhase::FadingIn,
                    phase_timer: 0,
                    ..state
                },
                None => IntroState { phase_timer: timer, ..state },
            }
        } else {
            IntroState { phase_timer: timer, ..state }
        },
    }
}

/// The intro state after one tick.
///
/// The phase timer advances. A fade in turns into the visible phase after
/// half a second; the visible phase turns into a fade out once the step's
/// duration less the two fades has passed; a fade out that has run half a
/// second moves on to the next step, fading in. Each change of phase
/// restarts the timer. After the last step's fade out the state stays as
/// it is.
#[verifier::when_used_as_spec(intro_state_after_spec)]
pub fn intro_state_after(state: IntroState, delta_seconds: Fixed) -> (r: IntroState)
    ensures
        r == intro_state_after_spec(state, delta_seconds),
{
    let timer = fx_add(state.phase_timer, delta_seconds);
    let visible_for = fx_sub(state.current_step.duration_secs(), fx_mul(2_000_000, FADE_DURATION));
    match state.fade_phase {
        FadePhase::FadingIn => if timer >= FADE_DURATION {
            IntroState { fade_phase: FadePhase::Visible, phase_timer: 0, ..state }
        } else {
            IntroState { phase_timer: timer, ..state }
        },
        FadePhase::Visible => if timer >= visible_for {
            IntroState { fade_phase: FadePhase::FadingOut, phase_timer: 0, ..state }
        } else {
            IntroState { phase_timer: timer, ..state }
        },
        FadePhase::FadingOut => if timer >= FADE_DURATION {
            match state.current_step.next() {
                Some(next_step) => IntroState {
                    current_step: next_step,
                    fade_phase: FadePhase::FadingIn,
                    phase_timer: 0,
                    ..state
                },
                None => IntroState { phase_timer: timer, ..state },
            }
        } else {
            IntroState { phase_timer: timer, ..state }
        },
    }
}

/// What the host must show after one tick of the intro.
///
/// While fading in, the text has its step's colour at an opacity that
/// eases out from zero to one; while fading out, at one minus the eased-in
/// share. When a fade out ends, the next step's text starts fully
/// transparent, or, after the last step, the intro is finished.
pub open spec fn intro_frame_for_spec(state: IntroState, delta_seconds: Fixed) -> IntroFrame {
    let timer = fx_add(state.phase_timer, delta_seconds);
    let base = step_color(state.current_step);
    match state.fade_phase {
        FadePhase::FadingIn => IntroFrame {
            text_color: Some(base.with_alpha(ease_out(fade_share(timer)))),
            new_step: None,
            finished: false,
        },
        FadePhase::Visible => IntroFrame { text_color: None, new_step: None, finished: false },
        FadePhase::FadingOut => if timer >= FADE_DURATION {
            match state.current_step.next() {
                Some(next_step) => IntroFrame {
                    text_color: Some(step_color(next_step).with_alpha(0)),
                    new_step: Some(next_step),
                    finished: false,
                },
                None => IntroFrame {
                    text_color: Some(base.with_alpha(fx_sub(ONE, ease_in(fade_share(timer))))),
                    new_step: None,
                    finished: true,
                },
            }
        } else {
            IntroFrame {
                text_color: Some(base.with_alpha(fx_sub(ONE, ease_in(fade_share(timer))))),
                new_step: None,
                finished: false,
            }
        },
    }
}

/// What the host must show after one tick of the intro.
///
/// While fading in, the text has its step's colour at an opacity that
/// eases out from zero to one; while fading out, at one minus the eased-in
/// share. When a fade out ends, the next step's text starts fully
/// transparent, or, after the last step, the intro is finished.
#[verifier::when_used_as_spec(intro_frame_for_spec)]
pub fn intro_frame_for(state: IntroState, delta_seconds: Fixed) -> (r: IntroFrame)
    ensures
        r == intro_frame_for_spec(state, delta_seconds),
{
    let timer = fx_add(state.phase_timer, delta_seconds);
    let base = step_color(state.current_step);
    match state.fade_phase {
        FadePhase::FadingIn => IntroFrame {
            text_color: Some(base.with_alpha(ease_out(fade_share(timer)))),
            new_step: None,
            finished: false,
        },
        FadePhase::Visible => IntroFrame { text_color: None, new_step: None, finished: false },
        FadePhase::FadingOut => if timer >= FADE_DURATION {
            match state.current_step.next() {
                Some(next_step) => IntroFrame {
                    text_color: Some(step_color(next_step).with_alpha(0)),
                    new_step: Some(next_step),
                    finished: false,
                },
                None => IntroFrame {
                    text_color: Some(base.with_alpha(fx_sub(ONE, ease_in(fade_share(timer))))),
                    new_step: None,
                    finished: true,
                },
            }
        } else {
            IntroFrame {
                text_color: Some(base.with_alpha(fx_sub(ONE, ease_in(fade_share(timer))))),
                new_step: None,
                finished: false,
            }
        },
    }
}

/// Advances the intro sequence by one tick and says what the host must
/// show, as [`intro_state_after`] and [`intro_frame_for`] describe.
pub fn update_intro_sequence(intro_state: &mut IntroState, delta_seconds: Fixed) -> (frame:
    IntroFrame)
    ensures
        *final(intro_state) == intro_state_after(*old(intro_state), delta_seconds),
        frame == intro_frame_for(*old(intro_state), delta_seconds),
{
    let frame = intro_frame_for(*intro_state, delta_seconds);
    *intro_state = intro_state_after(*intro_state, delta_seconds);
    frame
}

/// Whether a touch or click ends the intro now: on the last step any touch
/// does; on the other steps a touch does once the text has faded in.
pub open spec fn handle_intro_skip_spec(touched: bool, intro_state: IntroState) -> bool {
    touched && (intro_state.current_step == IntroStep::Ready || intro_state.fade_phase
        != FadePhase::FadingIn)
}

/// Whether a touch or click ends the intro now: on the last step any touch
/// does; on the other steps a touch does once the text has faded in.
#[verifier::when_used_as_spec(handle_intro_skip_spec)]
pub fn handle_intro_skip(touched: bool, intro_state: IntroState) -> (r: bool)
    ensures
        r == handle_intro_skip_spec(touched, intro_state),
{
    touched && (intro_state.current_step == IntroStep::Ready || intro_state.fade_phase
        != FadePhase::FadingIn)
}

} // verus!
