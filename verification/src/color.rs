//! Colours with fixed-point channels in the display (sRGB) space.

use vstd::prelude::*;
use crate::fixed::{Fixed, ONE};

verus! {

/// A colour as red, green, blue and alpha channels, each nominally in
/// `[0, ONE]`.
#[derive(Clone, Copy, Debug, PartialEq, Eq, Structural)]
pub struct Srgba {
    /// Red channel.
    pub red: Fixed,
    /// Green channel.
    pub green: Fixed,
    /// Blue channel.
    pub blue: Fixed,
    /// Opacity: `0` is transparent, `ONE` is opaque.
    pub alpha: Fixed,
}

impl Srgba {
    /// Opaque white.
    pub open spec fn white_spec() -> Srgba {
        Srgba { red: ONE, green: ONE, blue: ONE, alpha: ONE }
    }

    /// An opaque colour.
    pub open spec fn rgb_spec(red: Fixed, green: Fixed, blue: Fixed) -> Srgba {
        Srgba { red, green, blue, alpha: ONE }
    }

    /// The same colour with another opacity.
    pub open spec fn with_alpha_spec(self, alpha: Fixed) -> Srgba {
        Srgba { red: self.red, green: self.green, blue: self.blue, alpha }
    }

    /// Whether every channel lies in `[0, ONE]`.
    pub open spec fn in_gamut(self) -> bool {
        &&& 0 <= self.red <= ONE
        &&& 0 <= self.green <= ONE
        &&& 0 <= self.blue <= ONE
        &&& 0 <= self.alpha <= ONE
    }

    /// A colour from its four channels.
    pub fn new(red: Fixed, green: Fixed, blue: Fixed, alpha: Fixed) -> (r: Srgba)
        ensures
            r == (Srgba { red, green, blue, alpha }),
    {
        Srgba { red, green, blue, alpha }
    }

    /// An opaque colour.
    #[verifier::when_used_as_spec(rgb_spec)]
    pub fn rgb(red: Fixed, green: Fixed, blue: Fixed) -> (r: Srgba)
        ensures
            r == Srgba::rgb_spec(red, green, blue),
    {
        Srgba { red, green, blue, alpha: ONE }
    }

    /// Opaque white.
    #[verifier::when_used_as_spec(white_spec)]
    pub fn white() -> (r: Srgba)
        ensures
            r == Srgba::white_spec(),
    {
        Srgba { red: ONE, green: ONE, blue: ONE, alpha: ONE }
    }

    /// The same colour with another opacity.
    #[verifier::when_used_as_spec(with_alpha_spec)]
    pub fn with_alpha(self, alpha: Fixed) -> (r: Srgba)
        ensures
            r == self.with_alpha_spec(alpha),
    {
        Srgba { red: self.red, green: self.green, blue: self.blue, alpha }
    }
}

} // verus!
