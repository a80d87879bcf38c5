//! Colors of a progress bar: sRGB as given by users, and the linear channels
//! that the renderer reads, each channel held as the bits of an `f32`.
use vstd::prelude::*;

verus! {

/// A color in sRGB space with alpha, each channel held as the bit pattern
/// of a single-precision float (so 1.0 is `0x3f80_0000`).
#[derive(Clone, Copy, Debug, PartialEq, Eq, Structural)]
pub struct SrgbColor {
    pub red: u32,
    pub green: u32,
    pub blue: u32,
    pub alpha: u32,
}

/// A color in linear RGB space with alpha, each channel held as the bit
/// pattern of a single-precision float, in the layout the renderer reads.
#[derive(Clone, Copy, Debug, PartialEq, Eq, Structural)]
pub struct LinearColor {
    pub red: u32,
    pub green: u32,
    pub blue: u32,
    pub alpha: u32,
}

impl SrgbColor {
    /// The fully transparent color: every channel 0.0.
    pub open spec fn transparent_spec() -> SrgbColor {
        SrgbColor { red: 0, green: 0, blue: 0, alpha: 0 }
    }

    /// Returns the fully transparent color.
    pub fn transparent() -> (r: SrgbColor)
        ensures
            r == SrgbColor::transparent_spec(),
    {
        SrgbColor { red: 0, green: 0, blue: 0, alpha: 0 }
    }

    pub fn new(red: u32, green: u32, blue: u32, alpha: u32) -> (r: SrgbColor)
        ensures
            r == (SrgbColor { red, green, blue, alpha }),
    {
        SrgbColor { red, green, blue, alpha }
    }
}

/// Whether the bits `b` encode a NaN: all exponent bits set and a nonzero
/// fraction.
pub open spec fn is_nan_bits(b: u32) -> bool {
    (b & 0x7fff_ffffu32) > 0x7f80_0000u32
}

/// Whether one of the color channels (not alpha) of `c` is a NaN. Arithmetic
/// on a NaN gives a NaN whose bits are not fixed.
pub open spec fn nan_in_rgb(c: SrgbColor) -> bool {
    is_nan_bits(c.red) || is_nan_bits(c.green) || is_nan_bits(c.blue)
}

/// The linear form of an sRGB color without NaN channels, as bevy_color
/// computes it.
pub uninterp spec fn linear_of(color: SrgbColor) -> LinearColor;

/// What is known of `out` as the linear form of `src`: alpha is kept as it
/// is, a NaN channel stays a NaN, and without NaN channels the result is
/// `linear_of(src)`.
pub open spec fn converts_to(src: SrgbColor, out: LinearColor) -> bool {
    &&& out.alpha == src.alpha
    &&& is_nan_bits(src.red) ==> is_nan_bits(out.red)
    &&& is_nan_bits(src.green) ==> is_nan_bits(out.green)
    &&& is_nan_bits(src.blue) ==> is_nan_bits(out.blue)
    &&& !nan_in_rgb(src) ==> out == linear_of(src)
}

/// Relies on `bytemuck::cast`, which reinterprets the channel bits as floats,
/// and on bevy_color's `Color::srgba` and `Color::to_linear`: the linear
/// channels of an sRGB color. Alpha is copied; each other channel goes through
/// the gamma curve, whose `powf` is libm's portable code under bevy_math's
/// `libm` feature, so without NaNs the result depends on the channels alone.
/// A NaN channel comes out a NaN, with bits that are not fixed.
#[verifier::external_body]
pub(crate) fn to_linear(color: SrgbColor) -> (r: LinearColor)
    ensures
        r.alpha == color.alpha,
        is_nan_bits(color.red) ==> is_nan_bits(r.red),
        is_nan_bits(color.green) ==> is_nan_bits(r.green),
        is_nan_bits(color.blue) ==> is_nan_bits(r.blue),
        !nan_in_rgb(color) ==> r == linear_of(color),
{
    let [red, green, blue, alpha]: [_; 4] = bytemuck::cast([color.red, color.green, color.blue, color.alpha]);
    let c = bevy_color::Color::srgba(red, green, blue, alpha).to_linear();
    LinearColor {
        red: c.red.to_bits(),
        green: c.green.to_bits(),
        blue: c.blue.to_bits(),
        alpha: c.alpha.to_bits(),
    }
}

} // verus!
