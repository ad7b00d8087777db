use vstd::prelude::*;

verus! {

/// Fixed-point value of a color channel at full intensity (1.0).
///
/// The scale is 1000 sub-steps per 8-bit level, so an 8-bit channel
/// value converts to fixed point exactly, while intermediate
/// intensities between two 8-bit levels remain representable and are
/// truncated on the way back out.
pub const CHANNEL_ONE: u32 = 255000;

/// Fixed-point value of one 8-bit level of a color channel.
pub const CHANNEL_LEVEL: u32 = 1000;

/// An RGBA color. Each channel is a fixed-point intensity in
/// `[0, CHANNEL_ONE]`, where `CHANNEL_ONE` stands for 1.0.
#[derive(Clone, Copy, PartialEq, Eq, Structural, Debug)]
pub struct Color {
    pub r: u32,
    pub g: u32,
    pub b: u32,
    pub a: u32,
}

/// The fixed-point intensity of an 8-bit channel level.
pub open spec fn intensity_of_level(level: u8) -> u32 {
    (level as int * CHANNEL_LEVEL as int) as u32
}

/// The 8-bit level of a fixed-point intensity: the intensity is scaled
/// to the 0..=255 range and truncated, never rounded.
pub open spec fn level_of_intensity(intensity: u32) -> u8 {
    ((intensity as int * 255) / (CHANNEL_ONE as int)) as u8
}

impl Color {
    /// All four channels within the fixed-point intensity range.
    pub open spec fn wf(&self) -> bool {
        self.r <= CHANNEL_ONE && self.g <= CHANNEL_ONE && self.b <= CHANNEL_ONE
            && self.a <= CHANNEL_ONE
    }

    pub fn new(r: u32, g: u32, b: u32, a: u32) -> (c: Color)
        requires
            r <= CHANNEL_ONE,
            g <= CHANNEL_ONE,
            b <= CHANNEL_ONE,
            a <= CHANNEL_ONE,
        ensures
            c == (Color { r, g, b, a }),
            c.wf(),
    {
        Color { r, g, b, a }
    }

    /// Fully transparent black: the state of a freshly created raster
    /// canvas.
    pub fn transparent() -> (c: Color)
        ensures
            c == (Color { r: 0u32, g: 0u32, b: 0u32, a: 0u32 }),
            c.wf(),
    {
        Color { r: 0, g: 0, b: 0, a: 0 }
    }

    /// Opaque black: the sentinel returned by out-of-bounds raster
    /// reads.
    pub fn black() -> (c: Color)
        ensures
            c == (Color { r: 0u32, g: 0u32, b: 0u32, a: CHANNEL_ONE }),
            c.wf(),
    {
        Color { r: 0, g: 0, b: 0, a: CHANNEL_ONE }
    }

    /// Opaque white.
    pub fn white() -> (c: Color)
        ensures
            c == (Color { r: CHANNEL_ONE, g: CHANNEL_ONE, b: CHANNEL_ONE, a: CHANNEL_ONE }),
            c.wf(),
    {
        Color { r: CHANNEL_ONE, g: CHANNEL_ONE, b: CHANNEL_ONE, a: CHANNEL_ONE }
    }

    /// The color an 8-bit RGBA pixel decodes to: each channel scales
    /// up exactly.
    pub open spec fn spec_from_rgba8(r: u8, g: u8, b: u8, a: u8) -> Color {
        Color {
            r: intensity_of_level(r),
            g: intensity_of_level(g),
            b: intensity_of_level(b),
            a: intensity_of_level(a),
        }
    }

    pub fn from_rgba8(r: u8, g: u8, b: u8, a: u8) -> (c: Color)
        ensures
            c == Color::spec_from_rgba8(r, g, b, a),
            c.wf(),
    {
        Color {
            r: r as u32 * CHANNEL_LEVEL,
            g: g as u32 * CHANNEL_LEVEL,
            b: b as u32 * CHANNEL_LEVEL,
            a: a as u32 * CHANNEL_LEVEL,
        }
    }

    /// The 8-bit RGBA pixel this color encodes to; each channel is
    /// truncated to its level.
    pub open spec fn spec_to_rgba8(&self) -> (u8, u8, u8, u8) {
        (
            level_of_intensity(self.r),
            level_of_intensity(self.g),
            level_of_intensity(self.b),
            level_of_intensity(self.a),
        )
    }

    pub fn to_rgba8(&self) -> (p: (u8, u8, u8, u8))
        requires
            self.wf(),
        ensures
            p == self.spec_to_rgba8(),
    {
        proof {
            lemma_level_fits(self.r);
            lemma_level_fits(self.g);
            lemma_level_fits(self.b);
            lemma_level_fits(self.a);
        }
        (
            ((self.r * 255) / CHANNEL_ONE) as u8,
            ((self.g * 255) / CHANNEL_ONE) as u8,
            ((self.b * 255) / CHANNEL_ONE) as u8,
            ((self.a * 255) / CHANNEL_ONE) as u8,
        )
    }
}

/// A well-formed intensity encodes to an in-range 8-bit level.
pub proof fn lemma_level_fits(intensity: u32)
    requires
        intensity <= CHANNEL_ONE,
    ensures
        (intensity * 255) / (CHANNEL_ONE as int) <= 255,
{
    assert((intensity * 255) / (CHANNEL_ONE as int) <= 255) by (nonlinear_arith)
        requires intensity <= CHANNEL_ONE;
}

/// Decoding an 8-bit level and encoding it again gives the level back:
/// the scale-up is exact and the truncation loses nothing on exact
/// levels.
pub proof fn lemma_level_round_trip(level: u8)
    ensures
        level_of_intensity(intensity_of_level(level)) == level,
{
    assert((level * CHANNEL_LEVEL) * 255 == level * CHANNEL_ONE) by (nonlinear_arith);
    assert((level * CHANNEL_ONE) / (CHANNEL_ONE as int) == level) by (nonlinear_arith);
}

} // verus!
