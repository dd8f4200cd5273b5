use vstd::prelude::*;

verus! {

/// Number of millionths in one unit of lightness or chroma.
pub const MILLIONTHS: u64 = 1000000;

/// Largest hue, in degrees, of the circular hue domain.
pub const FULL_TURN_DEGREES: u32 = 360;

/// A perceptual color as a lightness / chroma / hue triple.
///
/// `lightness` and `chroma` are in millionths of a unit (so `1000000` is a
/// lightness of 1.0), `hue` is in whole degrees within `0..=360`.
#[derive(Clone, Copy, Debug, PartialEq, Eq, Structural)]
pub struct Color {
    pub lightness: u64,
    pub chroma: u64,
    pub hue: u32,
}

impl Color {
    /// Well-formedness: the hue lies in the circular domain.
    pub open spec fn wf(self) -> bool {
        self.hue <= FULL_TURN_DEGREES
    }

    /// Whether `hue` is a degree value that the circular hue domain accepts.
    pub open spec fn valid_hue(hue: u32) -> bool {
        hue <= FULL_TURN_DEGREES
    }

    /// The color with the given lightness, chroma and hue.
    pub open spec fn spec_new(lightness: u64, chroma: u64, hue: u32) -> Color {
        Color { lightness, chroma, hue }
    }
}

/// Builds a color from its lightness, chroma (both in millionths) and hue in
/// degrees. The hue must already lie in the circular domain: every caller
/// passes a literal, so the requirement is proved for each call site.
pub fn oklch(lightness: u64, chroma: u64, hue: u32) -> (r: Color)
    requires
        Color::valid_hue(hue),
    ensures
        r == Color::spec_new(lightness, chroma, hue),
        r.wf(),
{
    Color { lightness, chroma, hue }
}

} // verus!
