use crate::color::{oklch, Color};
use vstd::prelude::*;

verus! {

/// Number of hundredths in a whole scale position.
pub const POSITION_ONE: u32 = 100;

/// Factor that turns ten-thousandths (the palette's knobs) into millionths
/// (the unit of a [`Color`]).
pub const KNOB_TO_COLOR: u64 = 100;

/// Named points along the background-to-foreground axis.
#[derive(Clone, Copy, Debug, PartialEq, Eq, Structural)]
pub enum BaseScale {
    Bg,
    LightBg,
    LighterBg,
    DarkFg,
    DimFg,
    Fg,
    BrightFg,
}

impl BaseScale {
    /// Position of the point on the axis, in hundredths (`0` is the
    /// background end, `100` the foreground end).
    pub open spec fn position(self) -> int {
        match self {
            BaseScale::Bg => 0,
            BaseScale::LightBg => 10,
            BaseScale::LighterBg => 25,
            BaseScale::DarkFg => 35,
            BaseScale::DimFg => 60,
            BaseScale::Fg => 85,
            BaseScale::BrightFg => 100,
        }
    }

    /// Position of the point on the axis, in hundredths.
    pub fn value(self) -> (r: u32)
        ensures
            r == self.position(),
            r <= POSITION_ONE,
    {
        match self {
            BaseScale::Bg => 0,
            BaseScale::LightBg => 10,
            BaseScale::LighterBg => 25,
            BaseScale::DarkFg => 35,
            BaseScale::DimFg => 60,
            BaseScale::Fg => 85,
            BaseScale::BrightFg => 100,
        }
    }
}

/// Linear interpolation of a position `x` (in hundredths) between `start` and
/// `end` (in ten-thousandths), in millionths: `x * (end - start) + start`.
/// It is not clamped, and `end` may lie below `start`.
pub open spec fn lerp_spec(x: int, start: int, end: int) -> int {
    x * (end - start) + KNOB_TO_COLOR * start
}

/// Interpolates linearly within `range` at position `x` (in hundredths); the
/// result is in millionths and exact.
pub fn lerp(x: u32, range: LightnessRange) -> (r: u64)
    requires
        x <= POSITION_ONE,
    ensures
        r == lerp_spec(x as int, range.start as int, range.end as int),
{
    let start = range.start as u64;
    let end = range.end as u64;
    let xl = x as u64;
    if start <= end {
        assert(xl * (end - start) <= 100 * (end - start)) by (nonlinear_arith)
            requires
                xl <= 100,
                start <= end,
        ;
        KNOB_TO_COLOR * start + xl * (end - start)
    } else {
        assert(xl * (start - end) <= 100 * (start - end)) by (nonlinear_arith)
            requires
                xl <= 100,
                end < start,
        ;
        assert(xl * (end - start) == -(xl * (start - end))) by (nonlinear_arith);
        KNOB_TO_COLOR * start - xl * (start - end)
    }
}

/// Converts a knob value (ten-thousandths) to the unit of a [`Color`]
/// (millionths).
pub open spec fn knob(v: u32) -> u64 {
    (v as u64 * KNOB_TO_COLOR) as u64
}

fn knob_to_color(v: u32) -> (r: u64)
    ensures
        r == knob(v),
        r == v * KNOB_TO_COLOR,
{
    v as u64 * KNOB_TO_COLOR
}

/// An ordered pair of lightness values (in ten-thousandths) between which
/// the base scale interpolates. `end` may lie below `start`.
#[derive(Clone, Copy, Debug, PartialEq, Eq, Structural)]
pub struct LightnessRange {
    pub start: u32,
    pub end: u32,
}

/// The tuning knobs from which every color of a theme is derived.
///
/// All values are in ten-thousandths of a unit (`10000` is 1.0). The base
/// lightness range need not be increasing: a light theme runs it from a high
/// start to a low end. No field is validated.
#[derive(Clone, Copy, Debug, PartialEq, Eq, Structural)]
pub struct Palette {
    pub base_lightness_range: LightnessRange,
    pub low_lightness: u32,
    pub high_lightness: u32,
    pub low_chroma: u32,
    pub medium_chroma: u32,
    pub high_chroma: u32,
}

/// The range `start..end` of base lightness.
pub open spec fn range_of(start: u32, end: u32) -> LightnessRange {
    LightnessRange { start, end }
}

impl Palette {
    /// The dark base configuration.
    pub open spec fn spec_default() -> Palette {
        Palette {
            base_lightness_range: range_of(1700, 10000),
            low_lightness: 8000,
            high_lightness: 9000,
            low_chroma: 320,
            medium_chroma: 700,
            high_chroma: 1000,
        }
    }

    /// The dark base with every chroma raised; high lightness is lowered to
    /// keep the perceived brightness of the more vivid colors balanced.
    pub open spec fn spec_chroma() -> Palette {
        Palette {
            low_chroma: 600,
            medium_chroma: 900,
            high_chroma: 1100,
            high_lightness: 8600,
            ..Palette::spec_default()
        }
    }

    /// The dark base with its contrast narrowed at both ends.
    pub open spec fn spec_soft() -> Palette {
        Palette { base_lightness_range: range_of(2500, 9500), ..Palette::spec_default() }
    }

    /// The chroma-raised dark configuration with its contrast narrowed.
    pub open spec fn spec_soft_chroma() -> Palette {
        Palette { base_lightness_range: range_of(2500, 9500), ..Palette::spec_chroma() }
    }

    /// The light base configuration: the base range runs from near white
    /// down to a darker foreground.
    pub open spec fn spec_light() -> Palette {
        Palette {
            base_lightness_range: range_of(10000, 2000),
            low_lightness: 6500,
            high_lightness: 5500,
            low_chroma: 400,
            medium_chroma: 600,
            high_chroma: 800,
        }
    }

    /// The light base with every chroma raised.
    pub open spec fn spec_light_chroma() -> Palette {
        Palette {
            low_chroma: 900,
            medium_chroma: 1000,
            high_chroma: 1200,
            ..Palette::spec_light()
        }
    }

    /// The light base with its contrast narrowed.
    pub open spec fn spec_light_soft() -> Palette {
        Palette { base_lightness_range: range_of(9600, 3000), ..Palette::spec_light() }
    }

    /// The chroma-raised light configuration with its contrast narrowed.
    pub open spec fn spec_light_soft_chroma() -> Palette {
        Palette { base_lightness_range: range_of(9600, 3000), ..Palette::spec_light_chroma() }
    }

    /// Lightness (in millionths) of the gray at `scale` on the base range.
    pub open spec fn base_lightness(self, scale: BaseScale) -> int {
        lerp_spec(
            scale.position(),
            self.base_lightness_range.start as int,
            self.base_lightness_range.end as int,
        )
    }
}

impl Default for Palette {
    /// The dark base configuration.
    fn default() -> (r: Self)
        ensures
            r == Palette::spec_default(),
    {
        Palette {
            base_lightness_range: LightnessRange { start: 1700, end: 10000 },
            low_lightness: 8000,
            high_lightness: 9000,
            low_chroma: 320,
            medium_chroma: 700,
            high_chroma: 1000,
        }
    }
}

impl Palette {
    /// The dark base with every chroma raised and high lightness lowered.
    pub fn chroma() -> (r: Self)
        ensures
            r == Palette::spec_chroma(),
    {
        Palette {
            low_chroma: 600,
            medium_chroma: 900,
            high_chroma: 1100,
            // lowered so that the chroma can be pushed a little higher
            high_lightness: 8600,
            ..Palette::default()
        }
    }

    /// The dark base with its contrast narrowed at both ends.
    pub fn soft() -> (r: Self)
        ensures
            r == Palette::spec_soft(),
    {
        Palette {
            base_lightness_range: LightnessRange { start: 2500, end: 9500 },
            ..Palette::default()
        }
    }

    /// The chroma-raised dark configuration with its contrast narrowed.
    pub fn soft_chroma() -> (r: Self)
        ensures
            r == Palette::spec_soft_chroma(),
    {
        Palette {
            base_lightness_range: LightnessRange { start: 2500, end: 9500 },
            ..Palette::chroma()
        }
    }

    /// The light base configuration.
    pub fn light() -> (r: Self)
        ensures
            r == Palette::spec_light(),
    {
        Palette {
            base_lightness_range: LightnessRange { start: 10000, end: 2000 },
            low_lightness: 6500,
            high_lightness: 5500,
            low_chroma: 400,
            medium_chroma: 600,
            high_chroma: 800,
        }
    }

    /// The light base with every chroma raised.
    pub fn light_chroma() -> (r: Self)
        ensures
            r == Palette::spec_light_chroma(),
    {
        Palette { low_chroma: 900, medium_chroma: 1000, high_chroma: 1200, ..Palette::light() }
    }

    /// The light base with its contrast narrowed.
    pub fn light_soft() -> (r: Self)
        ensures
            r == Palette::spec_light_soft(),
    {
        Palette {
            base_lightness_range: LightnessRange { start: 9600, end: 3000 },
            ..Palette::light()
        }
    }

    /// The chroma-raised light configuration with its contrast narrowed.
    pub fn light_soft_chroma() -> (r: Self)
        ensures
            r == Palette::spec_light_soft_chroma(),
    {
        Palette {
            base_lightness_range: LightnessRange { start: 9600, end: 3000 },
            ..Palette::light_chroma()
        }
    }

    /// The gray at `scale` on the base range: zero chroma and hue, lightness
    /// interpolated linearly (and unclamped) between the range's ends.
    pub fn base(&self, scale: BaseScale) -> (r: Color)
        ensures
            r.lightness == self.base_lightness(scale),
            r.chroma == 0,
            r.hue == 0,
    {
        oklch(lerp(scale.value(), self.base_lightness_range), 0, 0)
    }

    /// Pink: high lightness, low chroma, hue 0.
    pub fn pink(&self) -> (r: Color)
        ensures
            r == Color::spec_new(knob(self.high_lightness), knob(self.low_chroma), 0),
    {
        oklch(knob_to_color(self.high_lightness), knob_to_color(self.low_chroma), 0)
    }

    /// Red: low lightness, high chroma, hue 30.
    pub fn red(&self) -> (r: Color)
        ensures
            r == Color::spec_new(knob(self.low_lightness), knob(self.high_chroma), 30),
    {
        oklch(knob_to_color(self.low_lightness), knob_to_color(self.high_chroma), 30)
    }

    /// Yellow: high lightness, low chroma, hue 105.
    pub fn yellow(&self) -> (r: Color)
        ensures
            r == Color::spec_new(knob(self.high_lightness), knob(self.low_chroma), 105),
    {
        oklch(knob_to_color(self.high_lightness), knob_to_color(self.low_chroma), 105)
    }

    /// Green: high lightness, medium chroma, hue 130.
    pub fn green(&self) -> (r: Color)
        ensures
            r == Color::spec_new(knob(self.high_lightness), knob(self.medium_chroma), 130),
    {
        oklch(knob_to_color(self.high_lightness), knob_to_color(self.medium_chroma), 130)
    }

    /// Light green: high lightness, low chroma, hue 130.
    pub fn light_green(&self) -> (r: Color)
        ensures
            r == Color::spec_new(knob(self.high_lightness), knob(self.low_chroma), 130),
    {
        oklch(knob_to_color(self.high_lightness), knob_to_color(self.low_chroma), 130)
    }

    /// Blue: low lightness, high chroma, hue 230.
    pub fn blue(&self) -> (r: Color)
        ensures
            r == Color::spec_new(knob(self.low_lightness), knob(self.high_chroma), 230),
    {
        oklch(knob_to_color(self.low_lightness), knob_to_color(self.high_chroma), 230)
    }

    /// Light blue: high lightness, low chroma, hue 240.
    pub fn light_blue(&self) -> (r: Color)
        ensures
            r == Color::spec_new(knob(self.high_lightness), knob(self.low_chroma), 240),
    {
        oklch(knob_to_color(self.high_lightness), knob_to_color(self.low_chroma), 240)
    }

    /// Lavender: high lightness, low chroma, hue 285.
    pub fn lavender(&self) -> (r: Color)
        ensures
            r == Color::spec_new(knob(self.high_lightness), knob(self.low_chroma), 285),
    {
        oklch(knob_to_color(self.high_lightness), knob_to_color(self.low_chroma), 285)
    }

    /// Magenta: low lightness, high chroma, hue 330.
    pub fn magenta(&self) -> (r: Color)
        ensures
            r == Color::spec_new(knob(self.low_lightness), knob(self.high_chroma), 330),
    {
        oklch(knob_to_color(self.low_lightness), knob_to_color(self.high_chroma), 330)
    }
}

/// The two ends of the scale give the two ends of the base range exactly:
/// the background is the range's start and the brightest foreground its end,
/// for every palette.
pub proof fn lemma_base_endpoints(p: Palette)
    ensures
        p.base_lightness(BaseScale::Bg) == knob(p.base_lightness_range.start),
        p.base_lightness(BaseScale::BrightFg) == knob(p.base_lightness_range.end),
{
}

/// Every point of the scale lies within the interval spanned by the range's
/// ends, whichever way round the range runs.
pub proof fn lemma_base_within_range(p: Palette, scale: BaseScale)
    ensures
        p.base_lightness_range.start <= p.base_lightness_range.end ==> knob(
            p.base_lightness_range.start,
        ) <= p.base_lightness(scale) <= knob(p.base_lightness_range.end),
        p.base_lightness_range.start >= p.base_lightness_range.end ==> knob(
            p.base_lightness_range.end,
        ) <= p.base_lightness(scale) <= knob(p.base_lightness_range.start),
{
    let x = scale.position();
    let s = p.base_lightness_range.start as int;
    let e = p.base_lightness_range.end as int;
    assert(0 <= x <= 100);
    assert(s <= e ==> 0 <= x * (e - s) <= 100 * (e - s)) by (nonlinear_arith)
        requires
            0 <= x <= 100,
    ;
    assert(s >= e ==> 100 * (e - s) <= x * (e - s) <= 0) by (nonlinear_arith)
        requires
            0 <= x <= 100,
    ;
}

/// Along the scale, base lightness rises when the range is increasing and
/// falls when it is decreasing; strictly so between distinct positions.
pub proof fn lemma_base_monotonic(p: Palette, a: BaseScale, b: BaseScale)
    requires
        a.position() <= b.position(),
    ensures
        p.base_lightness_range.start < p.base_lightness_range.end ==> p.base_lightness(a)
            <= p.base_lightness(b),
        p.base_lightness_range.start > p.base_lightness_range.end ==> p.base_lightness(a)
            >= p.base_lightness(b),
        a.position() < b.position() && p.base_lightness_range.start < p.base_lightness_range.end
            ==> p.base_lightness(a) < p.base_lightness(b),
        a.position() < b.position() && p.base_lightness_range.start > p.base_lightness_range.end
            ==> p.base_lightness(a) > p.base_lightness(b),
{
    let x = a.position();
    let y = b.position();
    let d = p.base_lightness_range.end as int - p.base_lightness_range.start as int;
    assert(d > 0 ==> x * d <= y * d) by (nonlinear_arith)
        requires
            x <= y,
    ;
    assert(d < 0 ==> x * d >= y * d) by (nonlinear_arith)
        requires
            x <= y,
    ;
    assert(x < y && d > 0 ==> x * d < y * d) by (nonlinear_arith);
    assert(x < y && d < 0 ==> x * d > y * d) by (nonlinear_arith);
}

/// Base lightness depends on the palette's fields and the scale point alone:
/// equal palettes give identical grays at every point.
pub proof fn lemma_base_repeatable(p: Palette, q: Palette, scale: BaseScale)
    requires
        p == q,
    ensures
        p.base_lightness(scale) == q.base_lightness(scale),
{
}

} // verus!
